use vstd::prelude::*;

verus! {

/// Why a frame ring could not be built or a slot could not be written.
#[derive(Clone, Copy, Debug, PartialEq, Eq, Structural)]
pub enum FrameError {
    /// A ring needs at least one slot.
    NoFrames,
    /// A uniform record of zero bytes.
    EmptyRecord,
    /// The device reported an offset alignment of zero.
    ZeroAlignment,
    /// A stride shorter than the record it spaces.
    Stride,
    /// A stride, a buffer size or a count is more than its integer type, or
    /// more than one allocation, can hold.
    SizeOverflow,
    /// The number of slots handed over differs from the number asked for.
    SlotCountMismatch,
    /// Record data whose length is not what the buffer expects.
    RecordSize,
    /// A buffer or image handle occurs more than once.
    SharedResource,
    /// The slot's last submission has not been waited for.
    InFlight,
    /// More instance records than the buffer was reserved for.
    TooManyInstances,
}

} // verus!
