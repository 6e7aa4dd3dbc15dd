use vstd::prelude::*;

verus! {

/// Flags passed to `io_uring_setup`.
#[derive(Copy, Clone, PartialEq, Eq, Structural, Debug, Default)]
pub struct SetupFlags {
    bits: u32,
}

impl View for SetupFlags {
    type V = u32;

    closed spec fn view(&self) -> u32 {
        self.bits
    }
}

impl SetupFlags {
    pub const IOPOLL: u32 = 1;

    pub const SQPOLL: u32 = 2;

    pub const SQ_AFF: u32 = 4;

    pub const CQSIZE: u32 = 8;

    /// Every defined flag.
    pub const ALL: u32 = 0xf;

    /// No flags.
    pub fn empty() -> (r: Self)
        ensures
            r@ == 0,
    {
        SetupFlags { bits: 0 }
    }

    /// All defined flags.
    pub fn all() -> (r: Self)
        ensures
            r@ == Self::ALL,
    {
        SetupFlags { bits: Self::ALL }
    }

    /// The raw bits.
    pub fn bits(&self) -> (r: u32)
        ensures
            r == self@,
    {
        self.bits
    }

    /// The flags of `bits`, if it holds no undefined bit.
    pub fn from_bits(bits: u32) -> (r: Option<Self>)
        ensures
            r matches Some(f) ==> f@ == bits,
            r is Some <==> bits & !Self::ALL == 0,
    {
        if bits & !Self::ALL == 0 {
            Some(SetupFlags { bits })
        } else {
            None
        }
    }

    /// The defined flags of `bits`; other bits are dropped.
    pub fn from_bits_truncate(bits: u32) -> (r: Self)
        ensures
            r@ == bits & Self::ALL,
    {
        SetupFlags { bits: bits & Self::ALL }
    }

    /// All of `bits`, undefined ones included.
    pub fn from_bits_retain(bits: u32) -> (r: Self)
        ensures
            r@ == bits,
    {
        SetupFlags { bits }
    }

    /// Whether no flag is set.
    pub fn is_empty(&self) -> (r: bool)
        ensures
            r == (self@ == 0),
    {
        self.bits == 0
    }

    /// Whether every flag of `other` is set in `self`.
    pub fn contains(&self, other: Self) -> (r: bool)
        ensures
            r == (self@ & other@ == other@),
    {
        self.bits & other.bits == other.bits
    }

    /// The flags set in either.
    pub fn union(self, other: Self) -> (r: Self)
        ensures
            r@ == self@ | other@,
    {
        SetupFlags { bits: self.bits | other.bits }
    }

    /// The flags set in both.
    pub fn intersection(self, other: Self) -> (r: Self)
        ensures
            r@ == self@ & other@,
    {
        SetupFlags { bits: self.bits & other.bits }
    }

    /// The flags set in `self` and not in `other`.
    pub fn difference(self, other: Self) -> (r: Self)
        ensures
            r@ == self@ & !other@,
    {
        SetupFlags { bits: self.bits & !other.bits }
    }

    /// The defined flags not set in `self`.
    pub fn complement(self) -> (r: Self)
        ensures
            r@ == !self@ & Self::ALL,
    {
        SetupFlags { bits: !self.bits & Self::ALL }
    }

    /// Sets the flags of `other`.
    pub fn insert(&mut self, other: Self)
        ensures
            final(self)@ == old(self)@ | other@,
    {
        self.bits = self.bits | other.bits;
    }

    /// Clears the flags of `other`.
    pub fn remove(&mut self, other: Self)
        ensures
            final(self)@ == old(self)@ & !other@,
    {
        self.bits = self.bits & !other.bits;
    }
}

/// Features reported by the kernel in `io_uring_params`.
#[derive(Copy, Clone, PartialEq, Eq, Structural, Debug, Default)]
pub struct Features {
    bits: u32,
}

impl View for Features {
    type V = u32;

    closed spec fn view(&self) -> u32 {
        self.bits
    }
}

impl Features {
    pub const SINGLE_MMAP: u32 = 1;

    pub const NODROP: u32 = 2;

    pub const SUBMIT_STABLE: u32 = 4;

    pub const RW_CUR_POS: u32 = 8;

    pub const CUR_PERSONALITY: u32 = 16;

    /// Every defined flag.
    pub const ALL: u32 = 0x1f;

    /// No flags.
    pub fn empty() -> (r: Self)
        ensures
            r@ == 0,
    {
        Features { bits: 0 }
    }

    /// All defined flags.
    pub fn all() -> (r: Self)
        ensures
            r@ == Self::ALL,
    {
        Features { bits: Self::ALL }
    }

    /// The raw bits.
    pub fn bits(&self) -> (r: u32)
        ensures
            r == self@,
    {
        self.bits
    }

    /// The flags of `bits`, if it holds no undefined bit.
    pub fn from_bits(bits: u32) -> (r: Option<Self>)
        ensures
            r matches Some(f) ==> f@ == bits,
            r is Some <==> bits & !Self::ALL == 0,
    {
        if bits & !Self::ALL == 0 {
            Some(Features { bits })
        } else {
            None
        }
    }

    /// The defined flags of `bits`; other bits are dropped.
    pub fn from_bits_truncate(bits: u32) -> (r: Self)
        ensures
            r@ == bits & Self::ALL,
    {
        Features { bits: bits & Self::ALL }
    }

    /// All of `bits`, undefined ones included.
    pub fn from_bits_retain(bits: u32) -> (r: Self)
        ensures
            r@ == bits,
    {
        Features { bits }
    }

    /// Whether no flag is set.
    pub fn is_empty(&self) -> (r: bool)
        ensures
            r == (self@ == 0),
    {
        self.bits == 0
    }

    /// Whether every flag of `other` is set in `self`.
    pub fn contains(&self, other: Self) -> (r: bool)
        ensures
            r == (self@ & other@ == other@),
    {
        self.bits & other.bits == other.bits
    }

    /// The flags set in either.
    pub fn union(self, other: Self) -> (r: Self)
        ensures
            r@ == self@ | other@,
    {
        Features { bits: self.bits | other.bits }
    }

    /// The flags set in both.
    pub fn intersection(self, other: Self) -> (r: Self)
        ensures
            r@ == self@ & other@,
    {
        Features { bits: self.bits & other.bits }
    }

    /// The flags set in `self` and not in `other`.
    pub fn difference(self, other: Self) -> (r: Self)
        ensures
            r@ == self@ & !other@,
    {
        Features { bits: self.bits & !other.bits }
    }

    /// The defined flags not set in `self`.
    pub fn complement(self) -> (r: Self)
        ensures
            r@ == !self@ & Self::ALL,
    {
        Features { bits: !self.bits & Self::ALL }
    }

    /// Sets the flags of `other`.
    pub fn insert(&mut self, other: Self)
        ensures
            final(self)@ == old(self)@ | other@,
    {
        self.bits = self.bits | other.bits;
    }

    /// Clears the flags of `other`.
    pub fn remove(&mut self, other: Self)
        ensures
            final(self)@ == old(self)@ & !other@,
    {
        self.bits = self.bits & !other.bits;
    }
}

/// Flags of a submission queue entry.
#[derive(Copy, Clone, PartialEq, Eq, Structural, Debug, Default)]
pub struct SubmissionFlags {
    bits: u8,
}

impl View for SubmissionFlags {
    type V = u8;

    closed spec fn view(&self) -> u8 {
        self.bits
    }
}

impl SubmissionFlags {
    pub const FIXED_FILE: u8 = 1;

    pub const IO_DRAIN: u8 = 2;

    pub const IO_LINK: u8 = 4;

    pub const IO_HARDLINK: u8 = 8;

    pub const ASYNC: u8 = 16;

    pub const BUFFER_SELECT: u8 = 32;

    /// Every defined flag.
    pub const ALL: u8 = 0x3f;

    /// No flags.
    pub fn empty() -> (r: Self)
        ensures
            r@ == 0,
    {
        SubmissionFlags { bits: 0 }
    }

    /// All defined flags.
    pub fn all() -> (r: Self)
        ensures
            r@ == Self::ALL,
    {
        SubmissionFlags { bits: Self::ALL }
    }

    /// The raw bits.
    pub fn bits(&self) -> (r: u8)
        ensures
            r == self@,
    {
        self.bits
    }

    /// The flags of `bits`, if it holds no undefined bit.
    pub fn from_bits(bits: u8) -> (r: Option<Self>)
        ensures
            r matches Some(f) ==> f@ == bits,
            r is Some <==> bits & !Self::ALL == 0,
    {
        if bits & !Self::ALL == 0 {
            Some(SubmissionFlags { bits })
        } else {
            None
        }
    }

    /// The defined flags of `bits`; other bits are dropped.
    pub fn from_bits_truncate(bits: u8) -> (r: Self)
        ensures
            r@ == bits & Self::ALL,
    {
        SubmissionFlags { bits: bits & Self::ALL }
    }

    /// All of `bits`, undefined ones included.
    pub fn from_bits_retain(bits: u8) -> (r: Self)
        ensures
            r@ == bits,
    {
        SubmissionFlags { bits }
    }

    /// Whether no flag is set.
    pub fn is_empty(&self) -> (r: bool)
        ensures
            r == (self@ == 0),
    {
        self.bits == 0
    }

    /// Whether every flag of `other` is set in `self`.
    pub fn contains(&self, other: Self) -> (r: bool)
        ensures
            r == (self@ & other@ == other@),
    {
        self.bits & other.bits == other.bits
    }

    /// The flags set in either.
    pub fn union(self, other: Self) -> (r: Self)
        ensures
            r@ == self@ | other@,
    {
        SubmissionFlags { bits: self.bits | other.bits }
    }

    /// The flags set in both.
    pub fn intersection(self, other: Self) -> (r: Self)
        ensures
            r@ == self@ & other@,
    {
        SubmissionFlags { bits: self.bits & other.bits }
    }

    /// The flags set in `self` and not in `other`.
    pub fn difference(self, other: Self) -> (r: Self)
        ensures
            r@ == self@ & !other@,
    {
        SubmissionFlags { bits: self.bits & !other.bits }
    }

    /// The defined flags not set in `self`.
    pub fn complement(self) -> (r: Self)
        ensures
            r@ == !self@ & Self::ALL,
    {
        SubmissionFlags { bits: !self.bits & Self::ALL }
    }

    /// Sets the flags of `other`.
    pub fn insert(&mut self, other: Self)
        ensures
            final(self)@ == old(self)@ | other@,
    {
        self.bits = self.bits | other.bits;
    }

    /// Clears the flags of `other`.
    pub fn remove(&mut self, other: Self)
        ensures
            final(self)@ == old(self)@ & !other@,
    {
        self.bits = self.bits & !other.bits;
    }
}

/// Flags of a completion queue entry; when `BUFFER` is set the upper 16 bits are the buffer id.
#[derive(Copy, Clone, PartialEq, Eq, Structural, Debug, Default)]
pub struct CompletionFlags {
    bits: u32,
}

impl View for CompletionFlags {
    type V = u32;

    closed spec fn view(&self) -> u32 {
        self.bits
    }
}

impl CompletionFlags {
    pub const BUFFER: u32 = 1;

    pub const BUFFER_ID_MASK: u32 = 0xFFFF_0000;

    /// Every defined flag.
    pub const ALL: u32 = 0xffff0001;

    /// No flags.
    pub fn empty() -> (r: Self)
        ensures
            r@ == 0,
    {
        CompletionFlags { bits: 0 }
    }

    /// All defined flags.
    pub fn all() -> (r: Self)
        ensures
            r@ == Self::ALL,
    {
        CompletionFlags { bits: Self::ALL }
    }

    /// The raw bits.
    pub fn bits(&self) -> (r: u32)
        ensures
            r == self@,
    {
        self.bits
    }

    /// The flags of `bits`, if it holds no undefined bit.
    pub fn from_bits(bits: u32) -> (r: Option<Self>)
        ensures
            r matches Some(f) ==> f@ == bits,
            r is Some <==> bits & !Self::ALL == 0,
    {
        if bits & !Self::ALL == 0 {
            Some(CompletionFlags { bits })
        } else {
            None
        }
    }

    /// The defined flags of `bits`; other bits are dropped.
    pub fn from_bits_truncate(bits: u32) -> (r: Self)
        ensures
            r@ == bits & Self::ALL,
    {
        CompletionFlags { bits: bits & Self::ALL }
    }

    /// All of `bits`, undefined ones included.
    pub fn from_bits_retain(bits: u32) -> (r: Self)
        ensures
            r@ == bits,
    {
        CompletionFlags { bits }
    }

    /// Whether no flag is set.
    pub fn is_empty(&self) -> (r: bool)
        ensures
            r == (self@ == 0),
    {
        self.bits == 0
    }

    /// Whether every flag of `other` is set in `self`.
    pub fn contains(&self, other: Self) -> (r: bool)
        ensures
            r == (self@ & other@ == other@),
    {
        self.bits & other.bits == other.bits
    }

    /// The flags set in either.
    pub fn union(self, other: Self) -> (r: Self)
        ensures
            r@ == self@ | other@,
    {
        CompletionFlags { bits: self.bits | other.bits }
    }

    /// The flags set in both.
    pub fn intersection(self, other: Self) -> (r: Self)
        ensures
            r@ == self@ & other@,
    {
        CompletionFlags { bits: self.bits & other.bits }
    }

    /// The flags set in `self` and not in `other`.
    pub fn difference(self, other: Self) -> (r: Self)
        ensures
            r@ == self@ & !other@,
    {
        CompletionFlags { bits: self.bits & !other.bits }
    }

    /// The defined flags not set in `self`.
    pub fn complement(self) -> (r: Self)
        ensures
            r@ == !self@ & Self::ALL,
    {
        CompletionFlags { bits: !self.bits & Self::ALL }
    }

    /// Sets the flags of `other`.
    pub fn insert(&mut self, other: Self)
        ensures
            final(self)@ == old(self)@ | other@,
    {
        self.bits = self.bits | other.bits;
    }

    /// Clears the flags of `other`.
    pub fn remove(&mut self, other: Self)
        ensures
            final(self)@ == old(self)@ & !other@,
    {
        self.bits = self.bits & !other.bits;
    }
}

/// Flags of a probed operation.
#[derive(Copy, Clone, PartialEq, Eq, Structural, Debug, Default)]
pub struct ProbeOpFlags {
    bits: u16,
}

impl View for ProbeOpFlags {
    type V = u16;

    closed spec fn view(&self) -> u16 {
        self.bits
    }
}

impl ProbeOpFlags {
    pub const SUPPORTED: u16 = 1;

    /// Every defined flag.
    pub const ALL: u16 = 0x1;

    /// No flags.
    pub fn empty() -> (r: Self)
        ensures
            r@ == 0,
    {
        ProbeOpFlags { bits: 0 }
    }

    /// All defined flags.
    pub fn all() -> (r: Self)
        ensures
            r@ == Self::ALL,
    {
        ProbeOpFlags { bits: Self::ALL }
    }

    /// The raw bits.
    pub fn bits(&self) -> (r: u16)
        ensures
            r == self@,
    {
        self.bits
    }

    /// The flags of `bits`, if it holds no undefined bit.
    pub fn from_bits(bits: u16) -> (r: Option<Self>)
        ensures
            r matches Some(f) ==> f@ == bits,
            r is Some <==> bits & !Self::ALL == 0,
    {
        if bits & !Self::ALL == 0 {
            Some(ProbeOpFlags { bits })
        } else {
            None
        }
    }

    /// The defined flags of `bits`; other bits are dropped.
    pub fn from_bits_truncate(bits: u16) -> (r: Self)
        ensures
            r@ == bits & Self::ALL,
    {
        ProbeOpFlags { bits: bits & Self::ALL }
    }

    /// All of `bits`, undefined ones included.
    pub fn from_bits_retain(bits: u16) -> (r: Self)
        ensures
            r@ == bits,
    {
        ProbeOpFlags { bits }
    }

    /// Whether no flag is set.
    pub fn is_empty(&self) -> (r: bool)
        ensures
            r == (self@ == 0),
    {
        self.bits == 0
    }

    /// Whether every flag of `other` is set in `self`.
    pub fn contains(&self, other: Self) -> (r: bool)
        ensures
            r == (self@ & other@ == other@),
    {
        self.bits & other.bits == other.bits
    }

    /// The flags set in either.
    pub fn union(self, other: Self) -> (r: Self)
        ensures
            r@ == self@ | other@,
    {
        ProbeOpFlags { bits: self.bits | other.bits }
    }

    /// The flags set in both.
    pub fn intersection(self, other: Self) -> (r: Self)
        ensures
            r@ == self@ & other@,
    {
        ProbeOpFlags { bits: self.bits & other.bits }
    }

    /// The flags set in `self` and not in `other`.
    pub fn difference(self, other: Self) -> (r: Self)
        ensures
            r@ == self@ & !other@,
    {
        ProbeOpFlags { bits: self.bits & !other.bits }
    }

    /// The defined flags not set in `self`.
    pub fn complement(self) -> (r: Self)
        ensures
            r@ == !self@ & Self::ALL,
    {
        ProbeOpFlags { bits: !self.bits & Self::ALL }
    }

    /// Sets the flags of `other`.
    pub fn insert(&mut self, other: Self)
        ensures
            final(self)@ == old(self)@ | other@,
    {
        self.bits = self.bits | other.bits;
    }

    /// Clears the flags of `other`.
    pub fn remove(&mut self, other: Self)
        ensures
            final(self)@ == old(self)@ & !other@,
    {
        self.bits = self.bits & !other.bits;
    }
}

/// Flags of a timeout request.
#[derive(Copy, Clone, PartialEq, Eq, Structural, Debug, Default)]
pub struct TimeoutFlags {
    bits: u32,
}

impl View for TimeoutFlags {
    type V = u32;

    closed spec fn view(&self) -> u32 {
        self.bits
    }
}

impl TimeoutFlags {
    pub const ABS: u32 = 1;

    /// Every defined flag.
    pub const ALL: u32 = 0x1;

    /// No flags.
    pub fn empty() -> (r: Self)
        ensures
            r@ == 0,
    {
        TimeoutFlags { bits: 0 }
    }

    /// All defined flags.
    pub fn all() -> (r: Self)
        ensures
            r@ == Self::ALL,
    {
        TimeoutFlags { bits: Self::ALL }
    }

    /// The raw bits.
    pub fn bits(&self) -> (r: u32)
        ensures
            r == self@,
    {
        self.bits
    }

    /// The flags of `bits`, if it holds no undefined bit.
    pub fn from_bits(bits: u32) -> (r: Option<Self>)
        ensures
            r matches Some(f) ==> f@ == bits,
            r is Some <==> bits & !Self::ALL == 0,
    {
        if bits & !Self::ALL == 0 {
            Some(TimeoutFlags { bits })
        } else {
            None
        }
    }

    /// The defined flags of `bits`; other bits are dropped.
    pub fn from_bits_truncate(bits: u32) -> (r: Self)
        ensures
            r@ == bits & Self::ALL,
    {
        TimeoutFlags { bits: bits & Self::ALL }
    }

    /// All of `bits`, undefined ones included.
    pub fn from_bits_retain(bits: u32) -> (r: Self)
        ensures
            r@ == bits,
    {
        TimeoutFlags { bits }
    }

    /// Whether no flag is set.
    pub fn is_empty(&self) -> (r: bool)
        ensures
            r == (self@ == 0),
    {
        self.bits == 0
    }

    /// Whether every flag of `other` is set in `self`.
    pub fn contains(&self, other: Self) -> (r: bool)
        ensures
            r == (self@ & other@ == other@),
    {
        self.bits & other.bits == other.bits
    }

    /// The flags set in either.
    pub fn union(self, other: Self) -> (r: Self)
        ensures
            r@ == self@ | other@,
    {
        TimeoutFlags { bits: self.bits | other.bits }
    }

    /// The flags set in both.
    pub fn intersection(self, other: Self) -> (r: Self)
        ensures
            r@ == self@ & other@,
    {
        TimeoutFlags { bits: self.bits & other.bits }
    }

    /// The flags set in `self` and not in `other`.
    pub fn difference(self, other: Self) -> (r: Self)
        ensures
            r@ == self@ & !other@,
    {
        TimeoutFlags { bits: self.bits & !other.bits }
    }

    /// The defined flags not set in `self`.
    pub fn complement(self) -> (r: Self)
        ensures
            r@ == !self@ & Self::ALL,
    {
        TimeoutFlags { bits: !self.bits & Self::ALL }
    }

    /// Sets the flags of `other`.
    pub fn insert(&mut self, other: Self)
        ensures
            final(self)@ == old(self)@ | other@,
    {
        self.bits = self.bits | other.bits;
    }

    /// Clears the flags of `other`.
    pub fn remove(&mut self, other: Self)
        ensures
            final(self)@ == old(self)@ & !other@,
    {
        self.bits = self.bits & !other.bits;
    }
}

/// Flags passed to `io_uring_enter`.
#[derive(Copy, Clone, PartialEq, Eq, Structural, Debug, Default)]
pub struct EnterFlags {
    bits: u32,
}

impl View for EnterFlags {
    type V = u32;

    closed spec fn view(&self) -> u32 {
        self.bits
    }
}

impl EnterFlags {
    pub const GETEVENTS: u32 = 1;

    pub const SQ_WAKEUP: u32 = 2;

    /// Every defined flag.
    pub const ALL: u32 = 0x3;

    /// No flags.
    pub fn empty() -> (r: Self)
        ensures
            r@ == 0,
    {
        EnterFlags { bits: 0 }
    }

    /// All defined flags.
    pub fn all() -> (r: Self)
        ensures
            r@ == Self::ALL,
    {
        EnterFlags { bits: Self::ALL }
    }

    /// The raw bits.
    pub fn bits(&self) -> (r: u32)
        ensures
            r == self@,
    {
        self.bits
    }

    /// The flags of `bits`, if it holds no undefined bit.
    pub fn from_bits(bits: u32) -> (r: Option<Self>)
        ensures
            r matches Some(f) ==> f@ == bits,
            r is Some <==> bits & !Self::ALL == 0,
    {
        if bits & !Self::ALL == 0 {
            Some(EnterFlags { bits })
        } else {
            None
        }
    }

    /// The defined flags of `bits`; other bits are dropped.
    pub fn from_bits_truncate(bits: u32) -> (r: Self)
        ensures
            r@ == bits & Self::ALL,
    {
        EnterFlags { bits: bits & Self::ALL }
    }

    /// All of `bits`, undefined ones included.
    pub fn from_bits_retain(bits: u32) -> (r: Self)
        ensures
            r@ == bits,
    {
        EnterFlags { bits }
    }

    /// Whether no flag is set.
    pub fn is_empty(&self) -> (r: bool)
        ensures
            r == (self@ == 0),
    {
        self.bits == 0
    }

    /// Whether every flag of `other` is set in `self`.
    pub fn contains(&self, other: Self) -> (r: bool)
        ensures
            r == (self@ & other@ == other@),
    {
        self.bits & other.bits == other.bits
    }

    /// The flags set in either.
    pub fn union(self, other: Self) -> (r: Self)
        ensures
            r@ == self@ | other@,
    {
        EnterFlags { bits: self.bits | other.bits }
    }

    /// The flags set in both.
    pub fn intersection(self, other: Self) -> (r: Self)
        ensures
            r@ == self@ & other@,
    {
        EnterFlags { bits: self.bits & other.bits }
    }

    /// The flags set in `self` and not in `other`.
    pub fn difference(self, other: Self) -> (r: Self)
        ensures
            r@ == self@ & !other@,
    {
        EnterFlags { bits: self.bits & !other.bits }
    }

    /// The defined flags not set in `self`.
    pub fn complement(self) -> (r: Self)
        ensures
            r@ == !self@ & Self::ALL,
    {
        EnterFlags { bits: !self.bits & Self::ALL }
    }

    /// Sets the flags of `other`.
    pub fn insert(&mut self, other: Self)
        ensures
            final(self)@ == old(self)@ | other@,
    {
        self.bits = self.bits | other.bits;
    }

    /// Clears the flags of `other`.
    pub fn remove(&mut self, other: Self)
        ensures
            final(self)@ == old(self)@ & !other@,
    {
        self.bits = self.bits & !other.bits;
    }
}

impl CompletionFlags {
    /// The buffer id carried in the upper 16 bits, if the `BUFFER` flag is
    /// set.
    pub fn buf_id(&self) -> (r: Option<u16>)
        ensures
            r == (if self@ & Self::BUFFER == Self::BUFFER {
                Some((self@ >> 16u32) as u16)
            } else {
                None
            }),
    {
        if self.contains(CompletionFlags::from_bits_retain(Self::BUFFER)) {
            Some((self.bits >> 16) as u16)
        } else {
            None
        }
    }
}

/// The set algebra every flag type obeys, on 32-bit flag words: after
/// `insert(b)` the flags contain `b`; after `remove(b)` none of `b` is left;
/// removing then inserting `b` is inserting it; the part of `a` outside `b`
/// and the part inside `b` together make `a`; taking the complement twice
/// keeps exactly the defined flags of `a`; union and intersection do not
/// depend on the order of their operands.
pub proof fn law_flag_algebra_u32(a: u32, b: u32, all: u32) by (bit_vector)
    ensures
        (a | b) & b == b,
        (a & !b) & b == 0,
        (a & !b) | b == a | b,
        (a & !b) | (a & b) == a,
        !(!a & all) & all == a & all,
        a | b == b | a,
        a & b == b & a,
{
}

/// The same set algebra on 16-bit flag words.
pub proof fn law_flag_algebra_u16(a: u16, b: u16, all: u16) by (bit_vector)
    ensures
        (a | b) & b == b,
        (a & !b) & b == 0,
        (a & !b) | b == a | b,
        (a & !b) | (a & b) == a,
        !(!a & all) & all == a & all,
        a | b == b | a,
        a & b == b & a,
{
}

/// The same set algebra on 8-bit flag words.
pub proof fn law_flag_algebra_u8(a: u8, b: u8, all: u8) by (bit_vector)
    ensures
        (a | b) & b == b,
        (a & !b) & b == 0,
        (a & !b) | b == a | b,
        (a & !b) | (a & b) == a,
        !(!a & all) & all == a & all,
        a | b == b | a,
        a & b == b & a,
{
}

/// Truncating keeps only defined flags and is the identity on a word that
/// has no undefined flag, which is exactly when `from_bits` accepts it.
pub proof fn law_truncate_u32(bits: u32, all: u32) by (bit_vector)
    ensures
        (bits & all) & !all == 0,
        bits & !all == 0 ==> bits & all == bits,
{
}

} // verus!
