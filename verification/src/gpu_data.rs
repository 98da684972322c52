//! GPU instance-buffer bookkeeping.
//!
//! `GpuBuffer` models a GPU-resident homogeneous array: it tracks the
//! allocated slot count (`capacity`), the currently valid slot count
//! (`num_items`), and — as ghost state — the records the buffer holds.
//! Capacity never shrinks, and every content change is a full overwrite.
//! The actual device work is returned to the caller as a plan (sizes to
//! allocate, bytes to stage and copy); an unverified host performs it in
//! one in-order command stream, which keeps each copy sequenced before
//! the draws that read it.

use vstd::prelude::*;

verus! {

/// Little-endian byte sequence of a 32-bit value.
pub open spec fn u32_le(x: u32) -> Seq<u8> {
    seq![
        (x % 0x100) as u8,
        ((x / 0x100) % 0x100) as u8,
        ((x / 0x10000) % 0x100) as u8,
        ((x / 0x1000000) % 0x100) as u8,
    ]
}

/// Append the four little-endian bytes of `x`.
pub fn push_u32_le(out: &mut Vec<u8>, x: u32)
    ensures
        final(out)@ == old(out)@ + u32_le(x),
{
    out.push((x % 0x100) as u8);
    out.push(((x / 0x100) % 0x100) as u8);
    out.push(((x / 0x10000) % 0x100) as u8);
    out.push(((x / 0x1000000) % 0x100) as u8);
    proof {
        assert(final(out)@ =~= old(out)@ + u32_le(x));
    }
}

/// A record type that can be laid out byte-exactly for GPU upload.
///
/// `encoding` is the record's wire image; `size_spec` its fixed length in
/// bytes.  The GPU vertex layout that reads these bytes is fixed per type
/// and lives with the unverified device code.
pub trait GpuSerializable: Sized {
    /// The fixed encoded size of one record, in bytes.
    spec fn size_spec() -> nat;

    /// The exact bytes of one record.
    spec fn encoding(self) -> Seq<u8>;

    /// Every record encodes to exactly `size_spec` bytes.
    proof fn encoding_len(self)
        ensures
            self.encoding().len() == Self::size_spec(),
    ;

    /// The encoded size of one record, as a value.
    fn record_size() -> (n: u32)
        ensures
            n as nat == Self::size_spec(),
            1 <= n,
    ;

    /// Encode one record.
    fn encode_one(&self) -> (b: Vec<u8>)
        ensures
            b@ == self.encoding(),
    ;
}

/// The concatenated encodings of a record sequence, in order.
pub open spec fn batch_encoding<T: GpuSerializable>(s: Seq<T>) -> Seq<u8>
    decreases s.len(),
{
    if s.len() == 0 {
        Seq::empty()
    } else {
        batch_encoding(s.drop_last()) + s.last().encoding()
    }
}

/// A batch encodes to `len * size_spec` bytes.
pub proof fn lemma_batch_encoding_len<T: GpuSerializable>(s: Seq<T>)
    ensures
        batch_encoding(s).len() == s.len() * T::size_spec(),
    decreases s.len(),
{
    if s.len() == 0 {
    } else {
        lemma_batch_encoding_len(s.drop_last());
        s.last().encoding_len();
        assert((s.len() - 1) * T::size_spec() + T::size_spec() == s.len() * T::size_spec())
            by (nonlinear_arith);
    }
}

/// Encode a whole batch of records, in order.
pub fn gpu_serialize<T: GpuSerializable>(data: &[T]) -> (out: Vec<u8>)
    ensures
        out@ == batch_encoding(data@),
{
    let n = data.len();
    let mut out: Vec<u8> = Vec::new();
    let mut i: usize = 0;
    while i < n
        invariant
            i <= n,
            n == data@.len(),
            out@ == batch_encoding(data@.take(i as int)),
        decreases n - i,
    {
        proof {
            assert(data@.take(i as int + 1).drop_last() =~= data@.take(i as int));
            assert(data@.take(i as int + 1).last() == data@[i as int]);
        }
        let mut b = data[i].encode_one();
        out.append(&mut b);
        i = i + 1;
    }
    proof {
        assert(data@.take(n as int) =~= data@);
    }
    out
}

/// The specification-level state of a `GpuBuffer`.
pub ghost struct GpuBufferModel<T> {
    /// Allocated slot count.
    pub capacity: int,
    /// Currently valid slot count.
    pub num_items: int,
    /// The records the buffer holds, in insertion order.
    pub contents: Seq<T>,
}

/// The state after a full-content replacement: contents and live count
/// follow the new data, capacity grows exactly to the new length when it
/// must and is otherwise untouched.
pub open spec fn spec_replace<T: GpuSerializable>(
    m: GpuBufferModel<T>,
    data: Seq<T>,
) -> GpuBufferModel<T> {
    GpuBufferModel {
        capacity: if data.len() > m.capacity {
            data.len() as int
        } else {
            m.capacity
        },
        num_items: data.len() as int,
        contents: data,
    }
}

/// Replacement is idempotent: replacing twice with the same data gives
/// the same capacity, live count and contents as replacing once (and the
/// staged bytes of both replacements are the same `batch_encoding`).
pub proof fn lemma_replace_idempotent<T: GpuSerializable>(m: GpuBufferModel<T>, data: Seq<T>)
    ensures
        spec_replace(spec_replace(m, data), data) == spec_replace(m, data),
{
}

/// Capacity never shrinks across a replacement.
pub proof fn lemma_replace_capacity_monotone<T: GpuSerializable>(
    m: GpuBufferModel<T>,
    data: Seq<T>,
)
    ensures
        spec_replace(m, data).capacity >= m.capacity,
{
}

/// A device-buffer allocation the host must perform.
#[derive(Clone, Copy, Debug, PartialEq, Eq, Structural)]
pub struct BufferAlloc {
    /// Size of the buffer to allocate, in bytes.
    pub size_bytes: u64,
}

/// The device work of one full-content replacement: an optional
/// reallocation (present exactly when the batch outgrew the buffer), the
/// staged bytes, and the length of the staging-to-live copy.
#[derive(Debug)]
pub struct UpdatePlan {
    /// Allocate a new buffer of this many bytes first, discarding the old
    /// one; `None` reuses the existing allocation.
    pub reallocate: Option<BufferAlloc>,
    /// The bytes to place in a transient upload buffer.
    pub staging: Vec<u8>,
    /// How many bytes to copy from the staging buffer into the live
    /// buffer, at offset 0.
    pub copy_bytes: u64,
}

/// Bookkeeping for one GPU-resident instance array.
pub struct GpuBuffer<T: GpuSerializable> {
    capacity: u32,
    num_items: u32,
    contents: Ghost<Seq<T>>,
}

impl<T: GpuSerializable> GpuBuffer<T> {
    /// The buffer's specification-level state.
    pub closed spec fn model(self) -> GpuBufferModel<T> {
        GpuBufferModel {
            capacity: self.capacity as int,
            num_items: self.num_items as int,
            contents: self.contents@,
        }
    }

    /// Internal invariant: the live count never exceeds the capacity and
    /// matches the held records.
    pub closed spec fn wf(self) -> bool {
        &&& self.num_items <= self.capacity
        &&& self.contents@.len() == self.num_items
    }

    /// What well-formedness means for the model: the live count never
    /// exceeds the capacity and counts exactly the held records.
    pub proof fn lemma_wf(self)
        requires
            self.wf(),
        ensures
            self.model().num_items <= self.model().capacity,
            self.model().contents.len() == self.model().num_items,
    {
    }

    /// Create a buffer exactly sized to the given records and plan their
    /// upload: `capacity = live_count = data.len()`, and the returned
    /// bytes are the batch's exact encoding.
    pub fn new(data: &[T]) -> (r: (GpuBuffer<T>, Vec<u8>))
        requires
            data@.len() <= u32::MAX,
        ensures
            r.0.wf(),
            r.0.model().capacity == data@.len(),
            r.0.model().num_items == data@.len(),
            r.0.model().contents == data@,
            r.1@ == batch_encoding(data@),
    {
        let bytes = gpu_serialize(data);
        let n = data.len() as u32;
        (GpuBuffer { capacity: n, num_items: n, contents: Ghost(data@) }, bytes)
    }

    /// Create an empty buffer of the given capacity and plan its
    /// allocation: `live_count = 0`, and the allocation spans
    /// `capacity * record_size` bytes.
    pub fn new_with_capacity(capacity: u32) -> (r: (GpuBuffer<T>, BufferAlloc))
        ensures
            r.0.wf(),
            r.0.model().capacity == capacity,
            r.0.model().num_items == 0,
            r.0.model().contents == Seq::<T>::empty(),
            r.1.size_bytes as int == capacity * T::size_spec(),
    {
        let size = T::record_size();
        proof {
            assert(capacity as int * size as int <= 0xffff_ffff * 0xffff_ffff)
                by (nonlinear_arith)
                requires
                    capacity as int <= 0xffff_ffff,
                    size as int <= 0xffff_ffff,
                    0 <= capacity as int,
                    0 <= size as int,
            ;
        }
        let size_bytes = capacity as u64 * size as u64;
        (
            GpuBuffer { capacity, num_items: 0, contents: Ghost(Seq::empty()) },
            BufferAlloc { size_bytes },
        )
    }

    /// The currently valid slot count.
    pub fn len(&self) -> (r: u32)
        ensures
            r as int == self.model().num_items,
    {
        self.num_items
    }

    /// The allocated slot count.
    pub fn capacity(&self) -> (r: u32)
        ensures
            r as int == self.model().capacity,
    {
        self.capacity
    }

    /// Replace the full contents with `data` and plan the device work.
    ///
    /// When `data` fits the allocation, capacity is unchanged and no
    /// reallocation is planned; when it does not, capacity becomes
    /// exactly `data.len()` and a reallocation of exactly that many
    /// records is planned.  Either way the staged bytes are the batch's
    /// exact encoding, the copy covers exactly the new contents, and the
    /// prior contents are discarded.
    pub fn update(&mut self, data: &[T]) -> (plan: UpdatePlan)
        requires
            old(self).wf(),
            data@.len() <= u32::MAX,
        ensures
            final(self).wf(),
            final(self).model() == spec_replace(old(self).model(), data@),
            final(self).model().capacity >= old(self).model().capacity,
            plan.staging@ == batch_encoding(data@),
            plan.copy_bytes as int == data@.len() * T::size_spec(),
            (plan.reallocate.is_some() <==> data@.len() > old(self).model().capacity),
            plan.reallocate.is_some() ==> plan.reallocate.unwrap().size_bytes as int == data@.len()
                * T::size_spec(),
    {
        let n = data.len();
        let size = T::record_size();
        proof {
            assert(n as int * size as int <= 0xffff_ffff * 0xffff_ffff) by (nonlinear_arith)
                requires
                    n as int <= 0xffff_ffff,
                    size as int <= 0xffff_ffff,
                    0 <= n as int,
                    0 <= size as int,
            ;
        }
        let record_bytes = n as u64 * size as u64;
        let reallocate = if n > self.capacity as usize {
            self.capacity = n as u32;
            Some(BufferAlloc { size_bytes: record_bytes })
        } else {
            None
        };
        let staging = gpu_serialize(data);
        self.num_items = n as u32;
        self.contents = Ghost(data@);
        UpdatePlan { reallocate, staging, copy_bytes: record_bytes }
    }
}

} // verus!
