//! Host-side image of a uniform buffer: the bytes the host last wrote, laid
//! out record by record at a fixed stride.
use vstd::prelude::*;
use vstd::arithmetic::div_mod::{lemma_fundamental_div_mod, lemma_fundamental_div_mod_converse};
use vstd::arithmetic::mul::lemma_mul_inequality;
use crate::error::FrameError;
use crate::resources::BufferDescription;

verus! {

/// Byte `k` of a buffer after `records` were written over `before`: byte `j`
/// of record `i` lands at `i * stride + j`, every other byte stays.
pub open spec fn packed_byte(
    before: Seq<u8>,
    records: Seq<u8>,
    record_size: int,
    stride: int,
    k: int,
) -> u8 {
    let i = k / stride;
    let j = k % stride;
    if j < record_size && i < records.len() as int / record_size {
        records[i * record_size + j]
    } else {
        before[k]
    }
}

/// A buffer that held `before`, after the densely packed `records` were
/// written into it one per stride.
pub open spec fn packed(before: Seq<u8>, records: Seq<u8>, record_size: int, stride: int) -> Seq<
    u8,
> {
    Seq::new(before.len(), |k: int| packed_byte(before, records, record_size, stride, k))
}

/// What a uniform buffer is: its description for the device, its layout and
/// the bytes it holds.
pub struct UniformBufferView {
    pub description: BufferDescription,
    /// Bytes per record.
    pub record_size: nat,
    /// Distance in bytes from one record to the next.
    pub stride: nat,
    /// Number of records the buffer has room for.
    pub capacity: nat,
    pub contents: Seq<u8>,
}

impl UniformBufferView {
    /// Records do not overlap, the buffer is exactly `capacity` strides long,
    /// and all of it can be addressed.
    pub open spec fn wf(self) -> bool {
        &&& 0 < self.record_size <= self.stride
        &&& self.contents.len() == self.stride * self.capacity
        &&& self.description.size == self.contents.len()
        &&& self.capacity <= usize::MAX
        &&& self.contents.len() <= usize::MAX
    }

    /// The bytes of record `index`.
    pub open spec fn record(self, index: int) -> Seq<u8> {
        self.contents.subrange(index * self.stride, index * self.stride + self.record_size)
    }

    /// Whether `records` can be written, and if not, why.
    pub open spec fn update_result(self, records: Seq<u8>) -> Result<(), FrameError> {
        if records.len() % self.record_size != 0 {
            Err(FrameError::RecordSize)
        } else if records.len() / self.record_size > self.capacity {
            Err(FrameError::TooManyInstances)
        } else {
            Ok(())
        }
    }

    /// The buffer after `records` were written.
    pub open spec fn updated(self, records: Seq<u8>) -> Self {
        UniformBufferView {
            contents: packed(self.contents, records, self.record_size as int, self.stride as int),
            ..self
        }
    }
}

/// Whether a buffer of `capacity` records can be laid out, and if not, why.
/// The whole buffer must fit a single allocation.
pub open spec fn layout_result(record_size: usize, stride: usize, capacity: usize) -> Result<
    (),
    FrameError,
> {
    if record_size == 0 {
        Err(FrameError::EmptyRecord)
    } else if stride < record_size {
        Err(FrameError::Stride)
    } else if stride * capacity > isize::MAX {
        Err(FrameError::SizeOverflow)
    } else {
        Ok(())
    }
}

/// The buffer that `UniformBuffer::new` makes: laid out as asked, all zero.
pub open spec fn zeroed(
    record_size: usize,
    stride: usize,
    capacity: usize,
    usage: u32,
    memory_properties: u32,
) -> UniformBufferView {
    UniformBufferView {
        description: BufferDescription {
            size: (stride * capacity) as u64,
            usage,
            memory_properties,
        },
        record_size: record_size as nat,
        stride: stride as nat,
        capacity: capacity as nat,
        contents: Seq::new((stride * capacity) as nat, |k: int| 0u8),
    }
}

/// Byte `k` already holds its new value when the copy stands at byte `j` of
/// record `i`.
spec fn copied(k: int, record_size: int, stride: int, i: int, j: int) -> bool {
    k % stride < record_size && (k / stride < i || (k / stride == i && k % stride < j))
}

proof fn lemma_offset(i: int, j: int, stride: int)
    requires
        0 <= i,
        0 <= j < stride,
    ensures
        (i * stride + j) / stride == i,
        (i * stride + j) % stride == j,
        0 <= i * stride,
{
    lemma_fundamental_div_mod_converse(i * stride + j, stride, i, j);
    assert(0 <= i * stride) by (nonlinear_arith)
        requires
            0 <= i,
            0 <= stride,
    ;
}

proof fn lemma_copied_step(k: int, record_size: int, stride: int, i: int, j: int)
    requires
        0 <= k,
        0 < record_size <= stride,
        0 <= i,
        0 <= j < record_size,
    ensures
        copied(k, record_size, stride, i, j + 1) <==> (copied(k, record_size, stride, i, j) || k
            == i * stride + j),
{
    lemma_fundamental_div_mod(k, stride);
    lemma_offset(i, j, stride);
    if k / stride == i && k % stride == j {
        assert(stride * i == i * stride) by (nonlinear_arith);
    }
}

proof fn lemma_record_in_bounds(i: int, count: int, stride: int)
    requires
        0 <= i < count,
        0 <= stride,
    ensures
        0 <= i * stride,
        i * stride + stride <= count * stride,
{
    lemma_mul_inequality(i + 1, count, stride);
    assert((i + 1) * stride == i * stride + stride) by (nonlinear_arith);
    assert(0 <= i * stride) by (nonlinear_arith)
        requires
            0 <= i,
            0 <= stride,
    ;
}

/// After a write, each record written reads back unchanged at its stride
/// offset.
pub proof fn lemma_packed_record(
    before: Seq<u8>,
    records: Seq<u8>,
    record_size: int,
    stride: int,
    index: int,
)
    requires
        0 < record_size <= stride,
        records.len() as int % record_size == 0,
        0 <= index < records.len() as int / record_size,
        (records.len() as int / record_size) * stride <= before.len(),
    ensures
        packed(before, records, record_size, stride).subrange(
            index * stride,
            index * stride + record_size,
        ) == records.subrange(index * record_size, index * record_size + record_size),
{
    let count = records.len() as int / record_size;
    let after = packed(before, records, record_size, stride);
    lemma_record_in_bounds(index, count, stride);
    lemma_record_in_bounds(index, count, record_size);
    lemma_fundamental_div_mod(records.len() as int, record_size);
    assert(record_size * count == count * record_size) by (nonlinear_arith);
    let got = after.subrange(index * stride, index * stride + record_size);
    let want = records.subrange(index * record_size, index * record_size + record_size);
    assert forall|j: int| 0 <= j < record_size implies got[j] == want[j] by {
        lemma_offset(index, j, stride);
    }
    assert(got =~= want);
}

/// A write of exactly as many records as the buffer has room for is accepted.
pub proof fn lemma_full_update_accepted(buffer: UniformBufferView, records: Seq<u8>)
    requires
        buffer.wf(),
        records.len() == buffer.capacity * buffer.record_size,
    ensures
        buffer.update_result(records) is Ok,
        records.len() / buffer.record_size == buffer.capacity,
{
    lemma_fundamental_div_mod_converse(
        records.len() as int,
        buffer.record_size as int,
        buffer.capacity as int,
        0,
    );
}

/// After an accepted write, record `index` of the buffer is record `index` of
/// what was written.
pub proof fn lemma_update_reads_back(buffer: UniformBufferView, records: Seq<u8>, index: int)
    requires
        buffer.wf(),
        buffer.update_result(records) is Ok,
        0 <= index < records.len() / buffer.record_size,
    ensures
        buffer.updated(records).record(index) == records.subrange(
            index * buffer.record_size,
            index * buffer.record_size + buffer.record_size,
        ),
{
    let count = records.len() as int / buffer.record_size as int;
    lemma_mul_inequality(count, buffer.capacity as int, buffer.stride as int);
    assert(buffer.capacity * buffer.stride == buffer.stride * buffer.capacity)
        by (nonlinear_arith);
    lemma_packed_record(
        buffer.contents,
        records,
        buffer.record_size as int,
        buffer.stride as int,
        index,
    );
}

/// Bytes that no record covers keep their value across a write.
pub proof fn lemma_packed_padding(
    before: Seq<u8>,
    records: Seq<u8>,
    record_size: int,
    stride: int,
    k: int,
)
    requires
        0 < record_size <= stride,
        0 <= k < before.len(),
        k % stride >= record_size || k / stride >= records.len() as int / record_size,
    ensures
        packed(before, records, record_size, stride)[k] == before[k],
{
}

/// A single record written into a buffer of one record replaces its contents.
pub proof fn lemma_packed_single(before: Seq<u8>, record: Seq<u8>)
    requires
        record.len() > 0,
        before.len() == record.len(),
    ensures
        packed(before, record, record.len() as int, record.len() as int) == record,
{
    let n = record.len() as int;
    let after = packed(before, record, n, n);
    lemma_fundamental_div_mod_converse(n, n, 1, 0);
    assert forall|k: int| 0 <= k < n implies after[k] == record[k] by {
        lemma_fundamental_div_mod_converse(k, n, 0, k);
    }
    assert(after =~= record);
}

/// The host's copy of one uniform buffer.
#[derive(Debug)]
pub struct UniformBuffer {
    description: BufferDescription,
    record_size: usize,
    stride: usize,
    capacity: usize,
    data: Vec<u8>,
}

impl View for UniformBuffer {
    type V = UniformBufferView;

    closed spec fn view(&self) -> UniformBufferView {
        UniformBufferView {
            description: self.description,
            record_size: self.record_size as nat,
            stride: self.stride as nat,
            capacity: self.capacity as nat,
            contents: self.data@,
        }
    }
}

impl UniformBuffer {
    /// The buffer is laid out as its view says.
    pub open spec fn wf(&self) -> bool {
        self@.wf()
    }

    /// A zero-filled buffer of `capacity` records of `record_size` bytes, one
    /// every `stride` bytes.
    pub fn new(
        record_size: usize,
        stride: usize,
        capacity: usize,
        usage: u32,
        memory_properties: u32,
    ) -> (r: Result<UniformBuffer, FrameError>)
        ensures
            match r {
                Ok(buffer) => {
                    &&& layout_result(record_size, stride, capacity) is Ok
                    &&& buffer.wf()
                    &&& buffer@ == zeroed(record_size, stride, capacity, usage, memory_properties)
                },
                Err(e) => layout_result(record_size, stride, capacity) == Err::<(), FrameError>(e),
            },
    {
        if record_size == 0 {
            return Err(FrameError::EmptyRecord);
        }
        if stride < record_size {
            return Err(FrameError::Stride);
        }
        let size: usize = match stride.checked_mul(capacity) {
            Some(size) => size,
            None => {
                return Err(FrameError::SizeOverflow);
            },
        };
        if size > isize::MAX as usize {
            return Err(FrameError::SizeOverflow);
        }
        let data: Vec<u8> = vec![0u8; size];
        let buffer = UniformBuffer {
            description: BufferDescription { size: size as u64, usage, memory_properties },
            record_size,
            stride,
            capacity,
            data,
        };
        assert(buffer@.contents =~= zeroed(
            record_size,
            stride,
            capacity,
            usage,
            memory_properties,
        ).contents);
        Ok(buffer)
    }

    /// Overwrites the first records of the buffer with `records`, which holds
    /// whole records back to back; the rest of the buffer stays.
    pub fn update_buffer(&mut self, records: &Vec<u8>) -> (r: Result<(), FrameError>)
        requires
            old(self).wf(),
        ensures
            final(self).wf(),
            r == old(self)@.update_result(records@),
            r is Ok ==> final(self)@ == old(self)@.updated(records@),
            r is Err ==> final(self)@ == old(self)@,
    {
        let n: usize = records.len();
        let record_size: usize = self.record_size;
        let stride: usize = self.stride;
        if n % record_size != 0 {
            return Err(FrameError::RecordSize);
        }
        let count: usize = n / record_size;
        if count > self.capacity {
            return Err(FrameError::TooManyInstances);
        }
        let ghost before = self.data@;
        proof {
            lemma_fundamental_div_mod(n as int, record_size as int);
            assert(record_size * count == count * record_size) by (nonlinear_arith);
            lemma_mul_inequality(count as int, self.capacity as int, stride as int);
            assert(self.capacity * stride == stride * self.capacity) by (nonlinear_arith);
        }
        let mut i: usize = 0;
        let mut src: usize = 0;
        let mut dst: usize = 0;
        while i < count
            invariant
                0 < record_size <= stride,
                i <= count,
                n == records@.len(),
                n == count * record_size,
                count * stride <= before.len(),
                src == i * record_size,
                dst == i * stride,
                self.data@.len() == before.len(),
                before.len() <= usize::MAX,
                self.description == old(self).description,
                self.record_size == old(self).record_size,
                self.stride == old(self).stride,
                self.capacity == old(self).capacity,
                forall|k: int|
                    0 <= k < before.len() ==> self.data@[k] == (if copied(
                        k,
                        record_size as int,
                        stride as int,
                        i as int,
                        0,
                    ) {
                        records@[(k / stride as int) * record_size + k % stride as int]
                    } else {
                        before[k]
                    }),
            decreases count - i,
        {
            proof {
                lemma_record_in_bounds(i as int, count as int, stride as int);
                lemma_record_in_bounds(i as int, count as int, record_size as int);
            }
            let mut j: usize = 0;
            while j < record_size
                invariant
                    0 < record_size <= stride,
                    i < count,
                    j <= record_size,
                    n == records@.len(),
                    src == i * record_size,
                    dst == i * stride,
                    src + record_size <= n,
                    dst + stride <= before.len(),
                    self.data@.len() == before.len(),
                    before.len() <= usize::MAX,
                    self.description == old(self).description,
                    self.record_size == old(self).record_size,
                    self.stride == old(self).stride,
                    self.capacity == old(self).capacity,
                    forall|k: int|
                        0 <= k < before.len() ==> self.data@[k] == (if copied(
                            k,
                            record_size as int,
                            stride as int,
                            i as int,
                            j as int,
                        ) {
                            records@[(k / stride as int) * record_size + k % stride as int]
                        } else {
                            before[k]
                        }),
                decreases record_size - j,
            {
                let byte: u8 = records[src + j];
                self.data.set(dst + j, byte);
                proof {
                    assert forall|k: int| 0 <= k < before.len() implies self.data@[k] == (
                    if copied(k, record_size as int, stride as int, i as int, j + 1) {
                        records@[(k / stride as int) * record_size + k % stride as int]
                    } else {
                        before[k]
                    }) by {
                        lemma_copied_step(k, record_size as int, stride as int, i as int, j as int);
                        if k == dst + j {
                            lemma_offset(i as int, j as int, stride as int);
                        }
                    }
                }
                j += 1;
            }
            i += 1;
            src += record_size;
            dst += stride;
            proof {
                assert(i * record_size == (i - 1) * record_size + record_size)
                    by (nonlinear_arith);
                assert(i * stride == (i - 1) * stride + stride) by (nonlinear_arith);
            }
        }
        proof {
            let after = packed(before, records@, record_size as int, stride as int);
            lemma_fundamental_div_mod_converse(n as int, record_size as int, count as int, 0);
            assert forall|k: int| 0 <= k < before.len() implies self.data@[k] == after[k] by {
                lemma_fundamental_div_mod(k, stride as int);
            }
            assert(self.data@ =~= after);
        }
        Ok(())
    }

    /// A copy of record `index`, if the buffer has one.
    pub fn record(&self, index: usize) -> (r: Option<Vec<u8>>)
        requires
            self.wf(),
        ensures
            r is Some <==> index < self@.capacity,
            r matches Some(bytes) ==> bytes@ == self@.record(index as int),
    {
        if index >= self.capacity {
            return None;
        }
        proof {
            lemma_record_in_bounds(index as int, self.capacity as int, self.stride as int);
            assert(self.capacity * self.stride == self.stride * self.capacity)
                by (nonlinear_arith);
        }
        let start: usize = index * self.stride;
        let mut bytes: Vec<u8> = Vec::with_capacity(self.record_size);
        let mut j: usize = 0;
        while j < self.record_size
            invariant
                j <= self.record_size,
                start + self.record_size <= self.data@.len(),
                self.data@.len() <= usize::MAX,
                bytes@ == self.data@.subrange(start as int, start + j),
            decreases self.record_size - j,
        {
            bytes.push(self.data[start + j]);
            j += 1;
            assert(bytes@ =~= self.data@.subrange(start as int, start + j));
        }
        Some(bytes)
    }

    /// The bytes to upload to the device buffer.
    pub fn contents(&self) -> (r: &Vec<u8>)
        ensures
            r@ == self@.contents,
    {
        &self.data
    }

    /// What the device buffer behind this one is created with.
    pub fn description(&self) -> (r: BufferDescription)
        ensures
            r == self@.description,
    {
        self.description
    }

    /// Bytes per record.
    pub fn record_size(&self) -> (r: usize)
        ensures
            r == self@.record_size,
    {
        self.record_size
    }

    /// Distance in bytes from one record to the next.
    pub fn stride(&self) -> (r: usize)
        ensures
            r == self@.stride,
    {
        self.stride
    }

    /// Number of records the buffer has room for.
    pub fn capacity(&self) -> (r: usize)
        ensures
            r == self@.capacity,
    {
        self.capacity
    }
}

} // verus!
