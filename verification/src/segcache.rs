use vstd::prelude::*;

verus! {

/// Errors of the segment cache.
pub enum SegCacheError {
    /// The combination of keysize + valuesize + overhead was larger than the
    /// cache is able to store.
    DataTooLarge,
    /// The key may not be 0 bytes in length.
    EmptyKey,
}

/// Total size of a segment: one MiB.
pub const SEGMENT_TOTAL_SIZE: usize = 1048576;

/// Size of a segment's header: three atomic words, the expiry and a
/// reader-writer lock word (40 bytes on 64-bit targets, 24 on 32-bit ones).
pub const SEGMENT_HEADER_SIZE: usize = 4 * (usize::BITS as usize / 8) + 8;

/// Bytes of a segment available for chunks.
pub const AVAILABLE: usize = SEGMENT_TOTAL_SIZE - SEGMENT_HEADER_SIZE;

/// Largest key a segment can hold.
pub const MAX_KEY_SIZE: usize = AVAILABLE;

/// Largest value a segment can hold.
pub const MAX_VAL_SIZE: usize = AVAILABLE;

/// Size of a chunk header.
pub const CHUNK_HEADER_SIZE: usize = 4;

/// Alignment of a chunk header.
pub const CHUNK_HEADER_ALIGN: usize = 4;

/// `x` rounded up to the next multiple of `d`.
pub open spec fn spec_round_up(x: int, d: int) -> int {
    x + (d - x % d) % d
}

/// Round `x` up to the next multiple of `d`.
pub fn round_up(x: usize, d: usize) -> (r: usize)
    requires
        d > 0,
        x + d <= usize::MAX,
    ensures
        r == spec_round_up(x as int, d as int),
        r % d == 0,
        x <= r < x + d,
{
    proof {
        let xi = x as int;
        let di = d as int;
        assert(0 <= xi % di < di) by (nonlinear_arith)
            requires
                di > 0,
        ;
        assert((xi + (di - xi % di) % di) % di == 0) by (nonlinear_arith)
            requires
                di > 0,
        ;
    }
    x + (d - x % d) % d
}

/// The integer part of the base-2 logarithm of `x` (0 for `x <= 1`).
pub open spec fn floor_log2(x: nat) -> nat
    decreases x,
{
    if x <= 1 {
        0
    } else {
        1 + floor_log2(x / 2)
    }
}

/// `2^n`.
pub open spec fn pow2(n: nat) -> nat
    decreases n,
{
    if n == 0 {
        1
    } else {
        2 * pow2((n - 1) as nat)
    }
}

/// `floor_log2(x)` is the exponent of the highest power of two not above
/// `x`.
pub proof fn lemma_floor_log2_bounds(x: nat)
    requires
        x >= 1,
    ensures
        pow2(floor_log2(x)) <= x < 2 * pow2(floor_log2(x)),
    decreases x,
{
    if x > 1 {
        lemma_floor_log2_bounds(x / 2);
    }
}

/// The index of the highest set bit of `x`.
pub fn log2(x: usize) -> (r: u32)
    requires
        x > 0,
    ensures
        r == floor_log2(x as nat),
        r < 64,
{
    let mut y = x;
    let mut r: u32 = 0;
    assert(pow2(0) == 1);
    while y > 1
        invariant
            y >= 1,
            r < 64,
            x <= usize::MAX,
            r + floor_log2(y as nat) == floor_log2(x as nat),
            pow2(r as nat) * y <= x,
        decreases y,
    {
        proof {
            assert(pow2((r + 1) as nat) == 2 * pow2(r as nat));
            assert(pow2(r as nat) * 2 * (y / 2) <= pow2(r as nat) * y) by (nonlinear_arith)
                requires
                    y >= 1,
            ;
        }
        y = y / 2;
        r = r + 1;
        proof {
            lemma_pow2_grows(r as nat);
            assert(pow2(r as nat) <= x) by (nonlinear_arith)
                requires
                    pow2(r as nat) * y <= x,
                    y >= 1,
            ;
            assert(r < 64) by {
                lemma_pow2_64_exceeds(r as nat, x as nat);
            }
        }
    }
    r
}

proof fn lemma_pow2_grows(n: nat)
    ensures
        pow2(n) >= 1,
        pow2(n) >= n,
    decreases n,
{
    if n > 0 {
        lemma_pow2_grows((n - 1) as nat);
    }
}

proof fn lemma_pow2_monotone(a: nat, b: nat)
    requires
        a <= b,
    ensures
        pow2(a) <= pow2(b),
    decreases b,
{
    lemma_pow2_grows(b);
    if a < b {
        lemma_pow2_monotone(a, (b - 1) as nat);
    }
}

proof fn lemma_pow2_64_exceeds(r: nat, x: nat)
    requires
        pow2(r) <= x,
        x <= usize::MAX,
    ensures
        r < 64,
{
    if r >= 64 {
        lemma_pow2_monotone(64, r);
        reveal_with_fuel(pow2, 65);
        assert(pow2(64) == 0x1_0000_0000_0000_0000nat);
    }
}

/// The smaller of two numbers.
pub fn min(x: u32, y: u32) -> (r: u32)
    ensures
        r == (if x > y {
            y
        } else {
            x
        }),
{
    if x > y {
        y
    } else {
        x
    }
}


/// Bits of a chunk header holding the scale (the width of the stored key
/// length).
pub const SCALE_BITS: u32 = 4;

/// Width of the largest stored key length.
pub const SIZE_BITS: u32 = 19;

/// Bits of a chunk header holding the key and value lengths.
pub const TOTAL_SIZE_BITS: u32 = 20;

/// Bits of a chunk header holding the flags.
pub const FLAG_BITS: u32 = 8;

pub const SCALE_MASK: u32 = 15;

pub const FLAG_MASK: u32 = 255;

/// The header layout constants follow from the segment's size: the widths
/// are base-2 logarithms of the largest key and value and the masks cover
/// their fields.
pub proof fn lemma_header_layout()
    ensures
        SIZE_BITS == floor_log2((MAX_KEY_SIZE - 1) as nat),
        SCALE_BITS == floor_log2(SIZE_BITS as nat),
        TOTAL_SIZE_BITS == (if floor_log2((MAX_KEY_SIZE - 1) as nat) + floor_log2(
            MAX_VAL_SIZE as nat,
        ) > floor_log2(AVAILABLE as nat) + 1 {
            floor_log2(AVAILABLE as nat) + 1
        } else {
            floor_log2((MAX_KEY_SIZE - 1) as nat) + floor_log2(MAX_VAL_SIZE as nat)
        }),
        FLAG_BITS == 32 - SCALE_BITS - TOTAL_SIZE_BITS,
        SCALE_MASK == pow2(SCALE_BITS as nat) - 1,
        FLAG_MASK == pow2(FLAG_BITS as nat) - 1,
        AVAILABLE == SEGMENT_TOTAL_SIZE - SEGMENT_HEADER_SIZE,
{
    reveal_with_fuel(floor_log2, 21);
    reveal_with_fuel(pow2, 9);
}

/// The total size of a chunk holding a key and a value: the header plus
/// both, rounded up to the header's alignment.
pub open spec fn spec_total_size(klen: int, vlen: int) -> int {
    spec_round_up(klen + vlen + CHUNK_HEADER_SIZE, CHUNK_HEADER_ALIGN as int)
}

/// The error, if any, that `ChunkHeader::new` reports for these lengths.
pub open spec fn header_error(klen: usize, vlen: usize) -> Option<SegCacheError> {
    if spec_total_size(klen as int, vlen as int) > AVAILABLE || klen > MAX_KEY_SIZE || vlen
        > MAX_VAL_SIZE {
        Some(SegCacheError::DataTooLarge)
    } else if klen == 0 {
        Some(SegCacheError::EmptyKey)
    } else {
        None
    }
}

/// The scale stored for a key of length `klen`: the index of the highest
/// set bit of `klen - 1`.
pub open spec fn header_scale(klen: usize) -> u32 {
    floor_log2((klen - 1) as nat) as u32
}

/// The header word for these lengths and flags: the value length shifted
/// past the scale and or-ed with `klen - 1`, then the scale, then the
/// flags in the low bits.
pub open spec fn encode_header(klen: usize, vlen: usize, flags: u16) -> u32 {
    let scale = header_scale(klen);
    let sizes = ((vlen as u32) << scale) | ((klen - 1) as u32);
    let with_scale = (sizes << SCALE_BITS) | scale;
    (with_scale << FLAG_BITS) | ((flags as u32) & FLAG_MASK)
}

/// The scale field of a header word.
pub open spec fn word_scale(w: u32) -> u32 {
    (w >> FLAG_BITS) & SCALE_MASK
}

/// The key length a header word records: its key field, `scale` bits
/// wide, plus one.
pub open spec fn word_key_len(w: u32) -> int {
    ((w >> (FLAG_BITS + SCALE_BITS)) & !(0xffff_ffffu32 << word_scale(w))) + 1
}

/// The value length a header word records: the bits above its key field.
pub open spec fn word_val_len(w: u32) -> int {
    (w >> (FLAG_BITS + SCALE_BITS + word_scale(w))) as int
}

/// The header of a chunk: key length, value length and flags packed in 32
/// bits.
#[derive(Copy, Clone)]
pub struct ChunkHeader {
    data: u32,
}

impl ChunkHeader {
    /// The raw header word.
    pub closed spec fn raw(&self) -> u32 {
        self.data
    }

    /// The scale field.
    pub open spec fn spec_scale(&self) -> u32 {
        word_scale(self.raw())
    }

    /// The key length recorded in the header.
    pub open spec fn spec_key_len(&self) -> int {
        word_key_len(self.raw())
    }

    /// The value length recorded in the header.
    pub open spec fn spec_val_len(&self) -> int {
        word_val_len(self.raw())
    }

    /// The flags recorded in the header.
    pub open spec fn spec_flags(&self) -> u16 {
        (self.raw() & FLAG_MASK) as u16
    }

    /// A header for a key of `klen` bytes, a value of `vlen` bytes and
    /// `flags`; fails if the chunk would not fit in a segment or the key is
    /// empty.
    pub fn new(klen: usize, vlen: usize, flags: u16) -> (r: Result<Self, SegCacheError>)
        requires
            klen + vlen + CHUNK_HEADER_SIZE + CHUNK_HEADER_ALIGN <= usize::MAX,
            header_error(klen, vlen) is None ==> klen >= 2 && flags < 256,
        ensures
            match r {
                Ok(h) => header_error(klen, vlen) is None && h.raw() == encode_header(
                    klen,
                    vlen,
                    flags,
                ),
                Err(e) => header_error(klen, vlen) == Some(e),
            },
    {
        let total = ChunkHandle::total_size(klen, vlen);
        if total > AVAILABLE || klen > MAX_KEY_SIZE || vlen > MAX_VAL_SIZE {
            return Err(SegCacheError::DataTooLarge);
        }
        if klen == 0 {
            return Err(SegCacheError::EmptyKey);
        }
        let scale = log2(klen - 1);
        proof {
            lemma_floor_log2_bounds((klen - 1) as nat);
            lemma_floor_log2_small((klen - 1) as nat);
        }
        let mut data: u32 = 0;
        data = data | ((vlen as u32) << scale);
        data = data | ((klen - 1) as u32);
        data = data << SCALE_BITS;
        data = data | scale;
        data = data << FLAG_BITS;
        data = data | ((flags as u32) & FLAG_MASK);
        proof {
            let v = vlen as u32;
            let k = (klen - 1) as u32;
            assert((0u32 | (v << scale)) | k == (v << scale) | k) by (bit_vector);
        }
        Ok(ChunkHeader { data })
    }

    pub fn from_raw(data: u32) -> (h: Self)
        ensures
            h.raw() == data,
    {
        Self { data }
    }

    pub fn into_raw(&self) -> (r: u32)
        ensures
            r == self.raw(),
    {
        self.data
    }

    fn scale(&self) -> (r: u32)
        ensures
            r == self.spec_scale(),
            r <= 15,
    {
        let d = self.data;
        let r = (d >> FLAG_BITS) & SCALE_MASK;
        assert(r <= 15) by (bit_vector)
            requires
                r == (d >> 8u32) & 15u32,
        ;
        r
    }

    pub fn key_len(&self) -> (r: usize)
        ensures
            r == self.spec_key_len(),
    {
        let s = self.scale();
        proof {
            assert(1u32 << s >= 1) by (bit_vector)
                requires
                    s <= 15,
            ;
        }
        let mask = (1u32 << s) - 1;
        proof {
            assert(mask == !(0xffff_ffffu32 << s)) by (bit_vector)
                requires
                    s <= 15,
                    mask == (1u32 << s) - 1,
            ;
        }
        let d = self.data;
        let field = (d >> (FLAG_BITS + SCALE_BITS)) & mask;
        assert(field <= 0xffffu32) by (bit_vector)
            requires
                field == (d >> 12u32) & mask,
                mask == !(0xffff_ffffu32 << s),
                s <= 15,
        ;
        field as usize + 1
    }

    pub fn val_len(&self) -> (r: usize)
        ensures
            r == self.spec_val_len(),
    {
        (self.data >> (FLAG_BITS + SCALE_BITS + self.scale())) as usize
    }

    /// The total size of the chunk this header describes.
    pub fn total_len(&self) -> (r: usize)
        ensures
            r == spec_total_size(self.spec_key_len(), self.spec_val_len()),
    {
        let k = self.key_len();
        let v = self.val_len();
        proof {
            let s = self.spec_scale();
            let d = self.raw();
            assert(((d >> 8u32) & 15u32) <= 15u32) by (bit_vector);
            assert(d >> (12u32 + s) < 0x10_0000u32) by (bit_vector)
                requires
                    s <= 15u32,
            ;
            assert(((d >> 12u32) & !(0xffff_ffffu32 << s)) <= 0xffffu32) by (bit_vector)
                requires
                    s <= 15u32,
            ;
        }
        ChunkHandle::total_size(k, v)
    }

    pub fn flags(&self) -> (r: u16)
        ensures
            r == self.spec_flags(),
    {
        (self.data & FLAG_MASK) as u16
    }
}

/// Marking a chunk dead, which turns its header word `w` into `w | 1`, is
/// seen by `is_dead`, keeps the other flags, and leaves the scale and both
/// recorded lengths as they were.
pub proof fn law_set_dead(before: ChunkHeader, after: ChunkHeader)
    requires
        after.raw() == before.raw() | 1u32,
    ensures
        after.spec_flags() & ChunkHandle::DEAD_FLAG != 0,
        after.spec_flags() == before.spec_flags() | ChunkHandle::DEAD_FLAG,
        after.spec_scale() == before.spec_scale(),
        after.spec_key_len() == before.spec_key_len(),
        after.spec_val_len() == before.spec_val_len(),
{
    let a = after.raw();
    let b = before.raw();
    assert(((a & 255u32) as u16) & 1u16 != 0u16 && ((a & 255u32) as u16) == ((b & 255u32) as u16)
        | 1u16 && (a >> 8u32) == (b >> 8u32)) by (bit_vector)
        requires
            a == b | 1u32,
    ;
    assert((a >> 8u32) & 15u32 == (b >> 8u32) & 15u32);
    let s = (b >> 8u32) & 15u32;
    assert(a >> 12u32 == b >> 12u32) by (bit_vector)
        requires
            a >> 8u32 == b >> 8u32,
    ;
    assert(a >> (12u32 + s) == b >> (12u32 + s)) by (bit_vector)
        requires
            a >> 8u32 == b >> 8u32,
    ;
}

proof fn lemma_floor_log2_small(x: nat)
    requires
        1 <= x <= AVAILABLE,
    ensures
        floor_log2(x) <= SIZE_BITS,
{
    lemma_floor_log2_bounds(x);
    if floor_log2(x) > SIZE_BITS {
        lemma_pow2_monotone((SIZE_BITS + 1) as nat, floor_log2(x));
        reveal_with_fuel(pow2, 21);
        assert(pow2(20) == 1048576);
    }
}

/// The flags stored by `ChunkHeader::new` are read back unchanged by
/// `flags`.
pub proof fn lemma_flags_roundtrip(klen: usize, vlen: usize, flags: u16, h: ChunkHeader)
    requires
        flags < 256,
        h.raw() == encode_header(klen, vlen, flags),
    ensures
        h.spec_flags() == flags,
{
    let f = flags as u32;
    let w = (((vlen as u32) << header_scale(klen)) | ((klen - 1) as u32)) << SCALE_BITS
        | header_scale(klen);
    assert((((w << 8u32) | (f & 255u32)) & 255u32) == f) by (bit_vector)
        requires
            f < 256u32,
    ;
}

/// The flags a header is made with are read back, also from a header
/// rebuilt from its raw word: for any `h` that `ChunkHeader::new(klen,
/// vlen, flags)` returns (its raw word is `encode_header(klen, vlen,
/// flags)`) with flags that fit in `FLAG_BITS` bits, `h.flags()` and
/// `ChunkHeader::from_raw(h.into_raw()).flags()` are `flags`.
pub proof fn law_header_flags_roundtrip(klen: usize, vlen: usize, flags: u16, h: ChunkHeader, rebuilt: ChunkHeader)
    requires
        (flags as u32) < (1u32 << FLAG_BITS),
        h.raw() == encode_header(klen, vlen, flags),
        rebuilt.raw() == h.raw(),
    ensures
        h.spec_flags() == flags,
        rebuilt.spec_flags() == flags,
{
    assert(1u32 << 8u32 == 256u32) by (bit_vector);
    lemma_flags_roundtrip(klen, vlen, flags, h);
}

/// The scale stored by `ChunkHeader::new` is read back unchanged for keys
/// of up to 64 KiB (longer keys need a scale that does not fit its field).
pub proof fn lemma_scale_roundtrip(klen: usize, vlen: usize, flags: u16, h: ChunkHeader)
    requires
        2 <= klen <= 65536,
        h.raw() == encode_header(klen, vlen, flags),
    ensures
        h.spec_scale() == header_scale(klen),
{
    lemma_floor_log2_small((klen - 1) as nat);
    lemma_floor_log2_bounds((klen - 1) as nat);
    if floor_log2((klen - 1) as nat) >= 16 {
        lemma_pow2_monotone(16, floor_log2((klen - 1) as nat));
        reveal_with_fuel(pow2, 17);
        assert(pow2(16) == 65536);
    }
    let s = header_scale(klen);
    let f = flags as u32;
    let d = ((vlen as u32) << s) | ((klen - 1) as u32);
    assert((((((d << 4u32) | s) << 8u32) | (f & 255u32)) >> 8u32) & 15u32 == s) by (bit_vector)
        requires
            s <= 19u32,
            s < 16u32,
    ;
}


/// The marker for "no next segment" in a segment header.
pub const INVALID_NEXT: usize = usize::MAX;

/// The next segment in a chain, given the raw link stored in the header.
pub fn next_segment(raw: usize) -> (r: Option<usize>)
    ensures
        r == (if raw == INVALID_NEXT {
            None
        } else {
            Some(raw)
        }),
{
    if raw == INVALID_NEXT {
        None
    } else {
        Some(raw)
    }
}

/// The error, if any, that inserting a key of `klen` bytes and a value of
/// `vlen` bytes into a segment reports before looking for room.
pub open spec fn insert_error(klen: usize, vlen: usize) -> Option<SegCacheError> {
    if klen > MAX_KEY_SIZE || vlen > MAX_VAL_SIZE {
        Some(SegCacheError::DataTooLarge)
    } else if klen == 0 {
        Some(SegCacheError::EmptyKey)
    } else if spec_total_size(klen as int, vlen as int) > AVAILABLE {
        Some(SegCacheError::DataTooLarge)
    } else {
        None
    }
}

/// The checks a segment makes before inserting a key of `klen` bytes and a
/// value of `vlen` bytes: the room the chunk needs, or why it cannot be
/// stored at all.
pub fn insert_size(klen: usize, vlen: usize) -> (r: Result<usize, SegCacheError>)
    ensures
        match r {
            Ok(total) => insert_error(klen, vlen) is None && total == spec_total_size(
                klen as int,
                vlen as int,
            ),
            Err(e) => insert_error(klen, vlen) == Some(e),
        },
{
    if klen > MAX_KEY_SIZE || vlen > MAX_VAL_SIZE {
        return Err(SegCacheError::DataTooLarge);
    }
    if klen == 0 {
        return Err(SegCacheError::EmptyKey);
    }
    let total = ChunkHandle::total_size(klen, vlen);
    if total > AVAILABLE {
        return Err(SegCacheError::DataTooLarge);
    }
    Ok(total)
}

/// Whether a chunk of `total` bytes placed at `offset` stays within the
/// segment.
pub fn chunk_fits(offset: usize, total: usize) -> (r: bool)
    requires
        offset + total <= usize::MAX,
    ensures
        r == (offset + total <= AVAILABLE),
{
    offset + total <= AVAILABLE
}

/// The four bytes of a header word as a chunk stores them, least
/// significant first.
pub open spec fn word_bytes(w: u32) -> Seq<u8> {
    seq![
        (w & 0xffu32) as u8,
        ((w >> 8u32) & 0xffu32) as u8,
        ((w >> 16u32) & 0xffu32) as u8,
        ((w >> 24u32) & 0xffu32) as u8,
    ]
}

/// The header word stored in the four bytes at `off`.
pub open spec fn word_at(bytes: Seq<u8>, off: int) -> u32 {
    (bytes[off] as u32) | ((bytes[off + 1] as u32) << 8u32) | ((bytes[off + 2] as u32) << 16u32)
        | ((bytes[off + 3] as u32) << 24u32)
}

/// The bytes of a chunk: its header word, then the key, then the value.
pub open spec fn chunk_bytes(header: u32, key: Seq<u8>, value: Seq<u8>) -> Seq<u8> {
    word_bytes(header) + key + value
}

/// `bytes` with `src` written over the positions from `at` on.
pub open spec fn overwrite(bytes: Seq<u8>, at: int, src: Seq<u8>) -> Seq<u8> {
    Seq::new(
        bytes.len(),
        |i: int|
            if at <= i < at + src.len() {
                src[i - at]
            } else {
                bytes[i]
            },
    )
}

proof fn lemma_word_roundtrip(w: u32)
    ensures
        word_at(word_bytes(w), 0) == w,
{
    let b0 = (w & 0xffu32) as u8;
    let b1 = ((w >> 8u32) & 0xffu32) as u8;
    let b2 = ((w >> 16u32) & 0xffu32) as u8;
    let b3 = ((w >> 24u32) & 0xffu32) as u8;
    assert((b0 as u32) | ((b1 as u32) << 8u32) | ((b2 as u32) << 16u32) | ((b3 as u32) << 24u32)
        == w) by (bit_vector)
        requires
            b0 == (w & 0xffu32) as u8,
            b1 == ((w >> 8u32) & 0xffu32) as u8,
            b2 == ((w >> 16u32) & 0xffu32) as u8,
            b3 == ((w >> 24u32) & 0xffu32) as u8,
    ;
}

/// Writes `src` into `data` from position `at` on.
fn write_bytes(data: &mut Vec<u8>, at: usize, src: &[u8])
    requires
        at + src@.len() <= old(data)@.len(),
    ensures
        final(data)@ == overwrite(old(data)@, at as int, src@),
{
    let mut j: usize = 0;
    while j < src.len()
        invariant
            at + src@.len() <= data.len(),
            data@.len() == old(data)@.len(),
            j <= src@.len(),
            forall|i: int|
                0 <= i < data@.len() ==> #[trigger] data@[i] == (if at <= i < at + j {
                    src@[i - at]
                } else {
                    old(data)@[i]
                }),
        decreases src@.len() - j,
    {
        data.set(at + j, src[j]);
        j = j + 1;
    }
    assert(data@ =~= overwrite(old(data)@, at as int, src@));
}

/// One segment of the cache: chunks are appended at its fill offset into
/// its bytes, and its header links it to the next segment of a chain.
pub struct Segment {
    offset: usize,
    next: usize,
    data: Vec<u8>,
}

impl Segment {
    /// The fill offset stays within the bytes available for chunks.
    pub closed spec fn wf(&self) -> bool {
        &&& self.data@.len() == AVAILABLE
        &&& self.offset <= AVAILABLE
    }

    /// Where the next chunk goes.
    pub closed spec fn spec_offset(&self) -> usize {
        self.offset
    }

    /// The raw link to the next segment.
    pub closed spec fn spec_next(&self) -> usize {
        self.next
    }

    /// The bytes available for chunks.
    pub closed spec fn bytes(&self) -> Seq<u8> {
        self.data@
    }

    /// An empty segment, linked to no other.
    pub fn new() -> (s: Self)
        ensures
            s.wf(),
            s.spec_offset() == 0,
            s.spec_next() == INVALID_NEXT,
            s.bytes().len() == AVAILABLE,
    {
        Segment { offset: 0, next: INVALID_NEXT, data: vec![0u8; AVAILABLE] }
    }

    /// The next segment of the chain, if any.
    pub fn next(&self) -> (r: Option<usize>)
        ensures
            r == (if self.spec_next() == INVALID_NEXT {
                None
            } else {
                Some(self.spec_next())
            }),
    {
        next_segment(self.next)
    }

    /// Where the next chunk goes.
    pub fn offset(&self) -> (r: usize)
        ensures
            r == self.spec_offset(),
    {
        self.offset
    }

    /// Appends a chunk holding `key` and `value`, with no flags set, at the
    /// fill offset. Fails if the pair could never be stored; `Ok(None)`,
    /// with the segment unchanged, if the segment has no room left for it.
    /// The chunk's header is sized to `ChunkHandle::total_size`, and the
    /// lengths the header records must give that size back.
    pub fn try_insert(&mut self, key: &[u8], value: &[u8]) -> (r: Result<
        Option<ChunkHandle>,
        SegCacheError,
    >)
        requires
            old(self).wf(),
            insert_error(key@.len() as usize, value@.len() as usize) is None ==> key@.len() >= 2
                && spec_total_size(
                word_key_len(encode_header(key@.len() as usize, value@.len() as usize, 0)),
                word_val_len(encode_header(key@.len() as usize, value@.len() as usize, 0)),
            ) == spec_total_size(key@.len() as int, value@.len() as int),
        ensures
            final(self).wf(),
            final(self).spec_next() == old(self).spec_next(),
            insert_error(key@.len() as usize, value@.len() as usize) matches Some(e) ==> (r matches Err(
                e2,
            ) && e2 == e && final(self).bytes() == old(self).bytes() && final(self).spec_offset()
                == old(self).spec_offset()),
            insert_error(key@.len() as usize, value@.len() as usize) is None && old(self).spec_offset()
                + spec_total_size(key@.len() as int, value@.len() as int) > AVAILABLE ==> (r
                matches Ok(None) && final(self).bytes() == old(self).bytes()
                && final(self).spec_offset() == old(self).spec_offset()),
            insert_error(key@.len() as usize, value@.len() as usize) is None && old(self).spec_offset()
                + spec_total_size(key@.len() as int, value@.len() as int) <= AVAILABLE ==> (r
                matches Ok(Some(h)) && h.spec_offset() == old(self).spec_offset()
                && final(self).spec_offset() == old(self).spec_offset() + spec_total_size(
                key@.len() as int,
                value@.len() as int,
            ) && final(self).bytes() == overwrite(
                old(self).bytes(),
                old(self).spec_offset() as int,
                chunk_bytes(
                    encode_header(key@.len() as usize, value@.len() as usize, 0),
                    key@,
                    value@,
                ),
            )),
    {
        let total = match insert_size(key.len(), value.len()) {
            Ok(total) => total,
            Err(e) => {
                return Err(e);
            },
        };
        if !chunk_fits(self.offset, total) {
            return Ok(None);
        }
        let header = match ChunkHeader::new(key.len(), value.len(), 0) {
            Ok(h) => h,
            Err(e) => {
                return Err(e);
            },
        };
        let off = self.offset;
        let raw = header.into_raw();
        let mut word: Vec<u8> = Vec::new();
        word.push((raw & 0xffu32) as u8);
        word.push(((raw >> 8u32) & 0xffu32) as u8);
        word.push(((raw >> 16u32) & 0xffu32) as u8);
        word.push(((raw >> 24u32) & 0xffu32) as u8);
        let ghost start = self.data@;
        write_bytes(&mut self.data, off, word.as_slice());
        let ghost with_word = self.data@;
        write_bytes(&mut self.data, off + CHUNK_HEADER_SIZE, key);
        let ghost with_key = self.data@;
        write_bytes(&mut self.data, off + CHUNK_HEADER_SIZE + key.len(), value);
        self.offset = off + total;
        proof {
            assert(word@ =~= word_bytes(raw));
            let c = chunk_bytes(raw, key@, value@);
            assert(self.data@ =~= overwrite(start, off as int, c));
        }
        Ok(Some(ChunkHandle { offset: off }))
    }
}

/// A chunk written into a segment, found by its offset there.
#[derive(Copy, Clone)]
pub struct ChunkHandle {
    offset: usize,
}

impl ChunkHandle {
    /// The flag that marks a chunk as dead.
    pub const DEAD_FLAG: u16 = 1;

    /// Where the chunk starts in its segment.
    pub closed spec fn spec_offset(&self) -> usize {
        self.offset
    }

    /// Where the chunk starts in its segment.
    pub fn offset(&self) -> (r: usize)
        ensures
            r == self.spec_offset(),
    {
        self.offset
    }

    /// The total size of a chunk holding a key of `klen` bytes and a value
    /// of `vlen` bytes: header, key and value, rounded up to the header's
    /// alignment.
    pub fn total_size(klen: usize, vlen: usize) -> (r: usize)
        requires
            klen + vlen + CHUNK_HEADER_SIZE + CHUNK_HEADER_ALIGN <= usize::MAX,
        ensures
            r == spec_total_size(klen as int, vlen as int),
    {
        round_up(klen + vlen + CHUNK_HEADER_SIZE, CHUNK_HEADER_ALIGN)
    }

    /// The chunk's header, read from the first four bytes of the chunk.
    pub fn header(&self, seg: &Segment) -> (h: ChunkHeader)
        requires
            seg.wf(),
            self.spec_offset() + CHUNK_HEADER_SIZE <= AVAILABLE,
        ensures
            h.raw() == word_at(seg.bytes(), self.spec_offset() as int),
    {
        let off = self.offset;
        let b0 = seg.data[off] as u32;
        let b1 = seg.data[off + 1] as u32;
        let b2 = seg.data[off + 2] as u32;
        let b3 = seg.data[off + 3] as u32;
        ChunkHeader::from_raw(b0 | (b1 << 8u32) | (b2 << 16u32) | (b3 << 24u32))
    }

    /// The flags in the chunk's header.
    pub fn flags(&self, seg: &Segment) -> (r: u16)
        requires
            seg.wf(),
            self.spec_offset() + CHUNK_HEADER_SIZE <= AVAILABLE,
        ensures
            r == (word_at(seg.bytes(), self.spec_offset() as int) & FLAG_MASK) as u16,
    {
        self.header(seg).flags()
    }

    /// Whether the chunk is marked dead.
    pub fn is_dead(&self, seg: &Segment) -> (r: bool)
        requires
            seg.wf(),
            self.spec_offset() + CHUNK_HEADER_SIZE <= AVAILABLE,
        ensures
            r == ((word_at(seg.bytes(), self.spec_offset() as int) & FLAG_MASK) as u16
                & Self::DEAD_FLAG != 0),
    {
        (self.flags(seg) & Self::DEAD_FLAG) != 0
    }

    /// Marks the chunk dead: sets the dead flag in its header word, which
    /// is its first byte, and changes nothing else.
    pub fn set_dead(&self, seg: &mut Segment)
        requires
            old(seg).wf(),
            self.spec_offset() + CHUNK_HEADER_SIZE <= AVAILABLE,
        ensures
            final(seg).wf(),
            final(seg).spec_offset() == old(seg).spec_offset(),
            final(seg).spec_next() == old(seg).spec_next(),
            final(seg).bytes() == old(seg).bytes().update(
                self.spec_offset() as int,
                old(seg).bytes()[self.spec_offset() as int] | 1u8,
            ),
            word_at(final(seg).bytes(), self.spec_offset() as int) == word_at(
                old(seg).bytes(),
                self.spec_offset() as int,
            ) | 1u32,
    {
        let off = self.offset;
        let b = seg.data[off];
        seg.data.set(off, b | 1u8);
        proof {
            let o = off as int;
            let old_b = old(seg).bytes();
            let b1 = old_b[o + 1];
            let b2 = old_b[o + 2];
            let b3 = old_b[o + 3];
            assert(seg.data@[o + 1] == b1 && seg.data@[o + 2] == b2 && seg.data@[o + 3] == b3);
            assert(((b | 1u8) as u32) | ((b1 as u32) << 8u32) | ((b2 as u32) << 16u32) | ((
            b3 as u32) << 24u32) == ((b as u32) | ((b1 as u32) << 8u32) | ((b2 as u32) << 16u32)
                | ((b3 as u32) << 24u32)) | 1u32) by (bit_vector);
        }
    }

    /// The key: the header's key length in bytes, right after the header.
    pub fn key<'a>(&self, seg: &'a Segment) -> (r: &'a [u8])
        requires
            seg.wf(),
            self.spec_offset() + CHUNK_HEADER_SIZE <= AVAILABLE,
            self.spec_offset() + CHUNK_HEADER_SIZE + word_key_len(
                word_at(seg.bytes(), self.spec_offset() as int),
            ) <= AVAILABLE,
        ensures
            r@ == seg.bytes().subrange(
                self.spec_offset() + CHUNK_HEADER_SIZE,
                self.spec_offset() + CHUNK_HEADER_SIZE + word_key_len(
                    word_at(seg.bytes(), self.spec_offset() as int),
                ),
            ),
    {
        let klen = self.header(seg).key_len();
        let start = self.offset + CHUNK_HEADER_SIZE;
        vstd::slice::slice_subrange(seg.data.as_slice(), start, start + klen)
    }

    /// The value: the header's value length in bytes, right after the key
    /// of the header's key length.
    pub fn value<'a>(&self, seg: &'a Segment) -> (r: &'a [u8])
        requires
            seg.wf(),
            self.spec_offset() + CHUNK_HEADER_SIZE <= AVAILABLE,
            self.spec_offset() + CHUNK_HEADER_SIZE + word_key_len(
                word_at(seg.bytes(), self.spec_offset() as int),
            ) + word_val_len(word_at(seg.bytes(), self.spec_offset() as int)) <= AVAILABLE,
        ensures
            r@ == seg.bytes().subrange(
                self.spec_offset() + CHUNK_HEADER_SIZE + word_key_len(
                    word_at(seg.bytes(), self.spec_offset() as int),
                ),
                self.spec_offset() + CHUNK_HEADER_SIZE + word_key_len(
                    word_at(seg.bytes(), self.spec_offset() as int),
                ) + word_val_len(word_at(seg.bytes(), self.spec_offset() as int)),
            ),
    {
        let h = self.header(seg);
        let klen = h.key_len();
        let vlen = h.val_len();
        let start = self.offset + CHUNK_HEADER_SIZE + klen;
        vstd::slice::slice_subrange(seg.data.as_slice(), start, start + vlen)
    }
}

/// A chunk written at `off` reads back: the header word at `off` is the
/// one written, the key and then the value follow it, and every byte
/// outside the chunk, those of the chunks before it included, is as it was.
pub proof fn law_written_chunk_reads_back(
    before: Seq<u8>,
    after: Seq<u8>,
    off: int,
    header: u32,
    key: Seq<u8>,
    value: Seq<u8>,
)
    requires
        0 <= off,
        off + CHUNK_HEADER_SIZE + key.len() + value.len() <= before.len(),
        after == overwrite(before, off, chunk_bytes(header, key, value)),
    ensures
        after.len() == before.len(),
        word_at(after, off) == header,
        after.subrange(off + CHUNK_HEADER_SIZE, off + CHUNK_HEADER_SIZE + key.len()) == key,
        after.subrange(
            off + CHUNK_HEADER_SIZE + key.len(),
            off + CHUNK_HEADER_SIZE + key.len() + value.len(),
        ) == value,
        forall|i: int|
            0 <= i < before.len() && !(off <= i < off + CHUNK_HEADER_SIZE + key.len()
                + value.len()) ==> #[trigger] after[i] == before[i],
{
    let c = chunk_bytes(header, key, value);
    let w = word_bytes(header);
    assert(c.len() == CHUNK_HEADER_SIZE + key.len() + value.len());
    assert(after[off] == w[0] && after[off + 1] == w[1] && after[off + 2] == w[2] && after[off
        + 3] == w[3]);
    lemma_word_roundtrip(header);
    assert(after.subrange(off + CHUNK_HEADER_SIZE, off + CHUNK_HEADER_SIZE + key.len()) =~= key);
    assert(after.subrange(
        off + CHUNK_HEADER_SIZE + key.len(),
        off + CHUNK_HEADER_SIZE + key.len() + value.len(),
    ) =~= value);
}

/// A chunk that `Segment::try_insert` writes carries no flags, so it is
/// not dead.
pub proof fn law_inserted_chunk_is_live(klen: usize, vlen: usize)
    ensures
        (encode_header(klen, vlen, 0) & FLAG_MASK) as u16 == 0,
        (encode_header(klen, vlen, 0) & FLAG_MASK) as u16 & ChunkHandle::DEAD_FLAG == 0,
{
    let h = ChunkHeader { data: encode_header(klen, vlen, 0) };
    lemma_flags_roundtrip(klen, vlen, 0, h);
    assert(0u16 & 1u16 == 0u16) by (bit_vector);
}

} // verus!
