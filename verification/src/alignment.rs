//! Stride of the records in a dynamic uniform buffer.
use vstd::prelude::*;
use vstd::arithmetic::div_mod::{lemma_fundamental_div_mod, lemma_mod_multiples_basic};
use vstd::arithmetic::mul::lemma_mul_strict_inequality_converse;
use crate::error::FrameError;

verus! {

/// `m` is a whole number of steps of `align`.
pub open spec fn is_multiple(m: int, align: int) -> bool {
    align > 0 && m % align == 0
}

/// `stride` is the smallest multiple of `align` that is at least `size`.
pub open spec fn is_aligned_stride(stride: int, size: int, align: int) -> bool {
    &&& is_multiple(stride, align)
    &&& stride >= size
    &&& forall|m: int| #[trigger] is_multiple(m, align) && m >= size ==> stride <= m
}

/// The stride of records of `size` bytes on a device that wants offsets to be
/// multiples of `align`: `size` rounded up to the next multiple.
pub open spec fn aligned_stride(size: int, align: int) -> int
    recommends
        size >= 0,
        align > 0,
{
    if size % align == 0 {
        size
    } else {
        size + align - size % align
    }
}

/// What `get_buffer_alignment` answers.
pub open spec fn stride_result(record_size: u64, min_alignment: u64) -> Result<u64, FrameError> {
    if min_alignment == 0 {
        Err(FrameError::ZeroAlignment)
    } else if aligned_stride(record_size as int, min_alignment as int) > u64::MAX {
        Err(FrameError::SizeOverflow)
    } else {
        Ok(aligned_stride(record_size as int, min_alignment as int) as u64)
    }
}

/// Rounding up gives the smallest multiple of `align` that is at least `size`.
pub proof fn lemma_aligned_stride(size: int, align: int)
    requires
        size >= 0,
        align > 0,
    ensures
        is_aligned_stride(aligned_stride(size, align), size, align),
{
    let stride = aligned_stride(size, align);
    let q = size / align;
    let r = size % align;
    lemma_fundamental_div_mod(size, align);
    if r != 0 {
        assert(stride == align * (q + 1)) by (nonlinear_arith)
            requires
                stride == size + align - r,
                size == align * q + r,
        ;
        lemma_mod_multiples_basic(q + 1, align);
        assert(align * (q + 1) == (q + 1) * align) by (nonlinear_arith);
    }
    assert forall|m: int| #[trigger] is_multiple(m, align) && m >= size implies stride <= m by {
        if r != 0 {
            let t = m / align;
            lemma_fundamental_div_mod(m, align);
            assert(q * align < t * align) by (nonlinear_arith)
                requires
                    align * q < align * t,
            ;
            lemma_mul_strict_inequality_converse(q, t, align);
            assert(align * (q + 1) <= align * t) by (nonlinear_arith)
                requires
                    q + 1 <= t,
                    align > 0,
            ;
        }
    }
}

/// There is only one such stride.
pub proof fn lemma_aligned_stride_unique(a: int, b: int, size: int, align: int)
    requires
        is_aligned_stride(a, size, align),
        is_aligned_stride(b, size, align),
    ensures
        a == b,
{
    assert(is_multiple(a, align));
    assert(is_multiple(b, align));
}

/// The stride equals the record size exactly when the record size is already
/// a multiple of the alignment.
pub proof fn lemma_stride_exact_iff_multiple(stride: int, size: int, align: int)
    requires
        size >= 0,
        is_aligned_stride(stride, size, align),
    ensures
        stride == size <==> size % align == 0,
{
    lemma_aligned_stride(size, align);
    lemma_aligned_stride_unique(stride, aligned_stride(size, align), size, align);
}

/// The distance between consecutive records in a dynamic uniform buffer: the
/// smallest multiple of the device's minimum offset alignment that holds one
/// record.
pub fn get_buffer_alignment(record_size: u64, min_alignment: u64) -> (r: Result<u64, FrameError>)
    ensures
        r == stride_result(record_size, min_alignment),
        r matches Ok(stride) ==> {
            &&& is_aligned_stride(stride as int, record_size as int, min_alignment as int)
            &&& (stride == record_size <==> record_size % min_alignment == 0)
        },
{
    if min_alignment == 0 {
        return Err(FrameError::ZeroAlignment);
    }
    proof {
        lemma_aligned_stride(record_size as int, min_alignment as int);
    }
    let rest: u64 = record_size % min_alignment;
    if rest == 0 {
        Ok(record_size)
    } else {
        match record_size.checked_add(min_alignment - rest) {
            Some(stride) => Ok(stride),
            None => Err(FrameError::SizeOverflow),
        }
    }
}

} // verus!
