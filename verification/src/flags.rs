//! Bit-flag fields of the driver's records, each an unsigned 32-bit word.

use vstd::prelude::*;

verus! {

/// No option: the reserved value.
pub const INSTANCE_CREATE_RESERVED: u32 = 0x00000000;

/// Every bit that `InstanceCreateFlags` defines.
pub const INSTANCE_CREATE_ALL_BITS: u32 = 0x00000000;

/// Options of context creation; none is defined, the field is reserved.
#[derive(Clone, Copy, Debug, Default, PartialEq, Eq, Structural)]
pub struct InstanceCreateFlags {
    pub bits: u32,
}

impl InstanceCreateFlags {
    /// The value with no bit set.
    pub fn empty() -> (flags: InstanceCreateFlags)
        ensures
            flags.bits == 0,
    {
        InstanceCreateFlags { bits: 0 }
    }

    /// The value with every defined bit set.
    pub fn all() -> (flags: InstanceCreateFlags)
        ensures
            flags.bits == INSTANCE_CREATE_ALL_BITS,
    {
        InstanceCreateFlags { bits: INSTANCE_CREATE_ALL_BITS }
    }

    /// The word as the driver holds it.
    pub fn bits(&self) -> (bits: u32)
        ensures
            bits == self.bits,
    {
        self.bits
    }

    /// The value of a word, unless the word has a bit set that is not defined.
    pub fn from_bits(bits: u32) -> (flags: Option<InstanceCreateFlags>)
        ensures
            flags.is_some() == (bits & !INSTANCE_CREATE_ALL_BITS == 0),
            flags matches Some(value) ==> value.bits == bits,
    {
        if bits & !INSTANCE_CREATE_ALL_BITS == 0 {
            Some(InstanceCreateFlags { bits })
        } else {
            None
        }
    }

    /// The value of a word with its undefined bits dropped.
    pub fn from_bits_truncate(bits: u32) -> (flags: InstanceCreateFlags)
        ensures
            flags.bits == bits & INSTANCE_CREATE_ALL_BITS,
    {
        InstanceCreateFlags { bits: bits & INSTANCE_CREATE_ALL_BITS }
    }

    /// Whether no bit is set.
    pub fn is_empty(&self) -> (empty: bool)
        ensures
            empty == (self.bits == 0),
    {
        self.bits == 0
    }

    /// Whether every bit of `other` is set in `self`.
    pub fn contains(&self, other: InstanceCreateFlags) -> (held: bool)
        ensures
            held == (self.bits & other.bits == other.bits),
    {
        self.bits & other.bits == other.bits
    }
}

/// One sample per pixel.
pub const SAMPLE_COUNT_1_BIT: u32 = 0x00000001;

/// Two samples per pixel.
pub const SAMPLE_COUNT_2_BIT: u32 = 0x00000002;

/// Four samples per pixel.
pub const SAMPLE_COUNT_4_BIT: u32 = 0x00000004;

/// Eight samples per pixel.
pub const SAMPLE_COUNT_8_BIT: u32 = 0x00000008;

/// Sixteen samples per pixel.
pub const SAMPLE_COUNT_16_BIT: u32 = 0x00000010;

/// Thirty-two samples per pixel.
pub const SAMPLE_COUNT_32_BIT: u32 = 0x00000020;

/// Sixty-four samples per pixel.
pub const SAMPLE_COUNT_64_BIT: u32 = 0x00000040;

/// Every bit that `SampleCountFlags` defines.
pub const SAMPLE_ALL_BITS: u32 = 0x0000007f;

/// Sample counts that an image or a framebuffer supports.
#[derive(Clone, Copy, Debug, Default, PartialEq, Eq, Structural)]
pub struct SampleCountFlags {
    pub bits: u32,
}

impl SampleCountFlags {
    /// The value with no bit set.
    pub fn empty() -> (flags: SampleCountFlags)
        ensures
            flags.bits == 0,
    {
        SampleCountFlags { bits: 0 }
    }

    /// The value with every defined bit set.
    pub fn all() -> (flags: SampleCountFlags)
        ensures
            flags.bits == SAMPLE_ALL_BITS,
    {
        SampleCountFlags { bits: SAMPLE_ALL_BITS }
    }

    /// The word as the driver holds it.
    pub fn bits(&self) -> (bits: u32)
        ensures
            bits == self.bits,
    {
        self.bits
    }

    /// The value of a word, unless the word has a bit set that is not defined.
    pub fn from_bits(bits: u32) -> (flags: Option<SampleCountFlags>)
        ensures
            flags.is_some() == (bits & !SAMPLE_ALL_BITS == 0),
            flags matches Some(value) ==> value.bits == bits,
    {
        if bits & !SAMPLE_ALL_BITS == 0 {
            Some(SampleCountFlags { bits })
        } else {
            None
        }
    }

    /// The value of a word with its undefined bits dropped.
    pub fn from_bits_truncate(bits: u32) -> (flags: SampleCountFlags)
        ensures
            flags.bits == bits & SAMPLE_ALL_BITS,
    {
        SampleCountFlags { bits: bits & SAMPLE_ALL_BITS }
    }

    /// Whether no bit is set.
    pub fn is_empty(&self) -> (empty: bool)
        ensures
            empty == (self.bits == 0),
    {
        self.bits == 0
    }

    /// Whether every bit of `other` is set in `self`.
    pub fn contains(&self, other: SampleCountFlags) -> (held: bool)
        ensures
            held == (self.bits & other.bits == other.bits),
    {
        self.bits & other.bits == other.bits
    }
}

/// Graphics operations.
pub const QUEUE_GRAPHICS_BIT: u32 = 0x00000001;

/// Compute operations.
pub const QUEUE_COMPUTE_BIT: u32 = 0x00000002;

/// Transfer operations.
pub const QUEUE_TRANSFER_BIT: u32 = 0x00000004;

/// Sparse memory binding.
pub const QUEUE_SPARSE_BINDING_BIT: u32 = 0x00000008;

/// Every bit that `QueueFlags` defines.
pub const QUEUE_ALL_BITS: u32 = 0x0000000f;

/// Kinds of work that the queues of a family accept.
#[derive(Clone, Copy, Debug, Default, PartialEq, Eq, Structural)]
pub struct QueueFlags {
    pub bits: u32,
}

impl QueueFlags {
    /// The value with no bit set.
    pub fn empty() -> (flags: QueueFlags)
        ensures
            flags.bits == 0,
    {
        QueueFlags { bits: 0 }
    }

    /// The value with every defined bit set.
    pub fn all() -> (flags: QueueFlags)
        ensures
            flags.bits == QUEUE_ALL_BITS,
    {
        QueueFlags { bits: QUEUE_ALL_BITS }
    }

    /// The word as the driver holds it.
    pub fn bits(&self) -> (bits: u32)
        ensures
            bits == self.bits,
    {
        self.bits
    }

    /// The value of a word, unless the word has a bit set that is not defined.
    pub fn from_bits(bits: u32) -> (flags: Option<QueueFlags>)
        ensures
            flags.is_some() == (bits & !QUEUE_ALL_BITS == 0),
            flags matches Some(value) ==> value.bits == bits,
    {
        if bits & !QUEUE_ALL_BITS == 0 {
            Some(QueueFlags { bits })
        } else {
            None
        }
    }

    /// The value of a word with its undefined bits dropped.
    pub fn from_bits_truncate(bits: u32) -> (flags: QueueFlags)
        ensures
            flags.bits == bits & QUEUE_ALL_BITS,
    {
        QueueFlags { bits: bits & QUEUE_ALL_BITS }
    }

    /// Whether no bit is set.
    pub fn is_empty(&self) -> (empty: bool)
        ensures
            empty == (self.bits == 0),
    {
        self.bits == 0
    }

    /// Whether every bit of `other` is set in `self`.
    pub fn contains(&self, other: QueueFlags) -> (held: bool)
        ensures
            held == (self.bits & other.bits == other.bits),
    {
        self.bits & other.bits == other.bits
    }
}

} // verus!
