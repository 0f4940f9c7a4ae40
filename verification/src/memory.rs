//! The memory model: a little-endian, byte-addressable region with range
//! and alignment checks.
//!
//! A region maps the addresses `[base, base + size)`.  A byte may be read or
//! written anywhere in it; a half-word only at an even address; a word only
//! at a multiple of four.  Every access that is refused leaves the region
//! unchanged and says why.
use crate::text::{hex_digits, push_hex};
use vstd::prelude::*;
use vstd::string::StringExecFns;

verus! {

/// The width of a memory access.
#[derive(Debug, Clone, Copy, PartialEq, Eq)]
pub enum AccessSize {
    Byte,
    Half,
    Word,
}

impl AccessSize {
    /// The number of bytes that the access spans.
    pub open spec fn spec_bytes(self) -> nat {
        match self {
            AccessSize::Byte => 1,
            AccessSize::Half => 2,
            AccessSize::Word => 4,
        }
    }

    /// The number of bytes that the access spans.
    pub fn bytes(self) -> (r: usize)
        ensures
            r == self.spec_bytes(),
    {
        match self {
            AccessSize::Byte => 1,
            AccessSize::Half => 2,
            AccessSize::Word => 4,
        }
    }
}

impl AccessSize {
    /// The name of the width.
    pub open spec fn spec_label(self) -> Seq<char> {
        match self {
            AccessSize::Byte => "Byte"@,
            AccessSize::Half => "Half"@,
            AccessSize::Word => "Word"@,
        }
    }

    /// The name of the width.
    pub fn label(self) -> (r: &'static str)
        ensures
            r@ == self.spec_label(),
    {
        match self {
            AccessSize::Byte => "Byte",
            AccessSize::Half => "Half",
            AccessSize::Word => "Word",
        }
    }
}

/// Why a memory access was refused.
#[derive(Debug, Clone, Copy, PartialEq, Eq)]
pub enum MemError {
    /// The address is not a multiple of the access width.
    Unaligned { addr: u32, access: AccessSize },
    /// The access does not lie inside the region.
    OutOfRange { addr: u32, access: AccessSize, base: u32, size: usize },
}

impl MemError {
    /// The error as text: the kind of the error, the width and the address
    /// of the access, and for a range error the region's first address and
    /// the address behind it, modulo `2^32`; addresses in lower-case
    /// hexadecimal.
    pub open spec fn spec_text(self) -> Seq<char> {
        match self {
            MemError::Unaligned { addr, access } => "Unaligned "@ + access.spec_label()
                + " access at 0x"@ + hex_digits(addr, false),
            MemError::OutOfRange { addr, access, base, size } => "Out-of-range "@
                + access.spec_label() + " access at 0x"@ + hex_digits(addr, false)
                + " (region=0x"@ + hex_digits(base, false) + "..0x"@ + hex_digits(
                ((base + size) % 0x1_0000_0000) as u32,
                false,
            ) + ")"@,
        }
    }

    /// The error as text.
    pub fn to_string(&self) -> (r: String)
        ensures
            r@ == self.spec_text(),
    {
        match self {
            MemError::Unaligned { addr, access } => {
                let mut text = String::from_str("Unaligned ");
                text.append(access.label());
                text.append(" access at 0x");
                push_hex(&mut text, *addr, false);
                assert(text@ =~= self.spec_text());
                text
            },
            MemError::OutOfRange { addr, access, base, size } => {
                let mut text = String::from_str("Out-of-range ");
                text.append(access.label());
                text.append(" access at 0x");
                push_hex(&mut text, *addr, false);
                text.append(" (region=0x");
                push_hex(&mut text, *base, false);
                text.append("..0x");
                let end = base.wrapping_add(((*size as u64) % 0x1_0000_0000) as u32);
                push_hex(&mut text, end, false);
                text.append(")");
                assert(text@ =~= self.spec_text());
                text
            },
        }
    }
}

/// The result of a memory access.
pub type MemResult<T> = Result<T, MemError>;

/// The abstract state of a memory: the address of its first byte and its
/// contents.
pub struct Region {
    pub base: u32,
    pub bytes: Seq<u8>,
}

/// Whether `addr` is a multiple of the width of `access`.
pub open spec fn aligned(addr: u32, access: AccessSize) -> bool {
    addr as int % access.spec_bytes() as int == 0
}

/// The half-word with low byte `b0` and high byte `b1`.
pub open spec fn le16(b0: u8, b1: u8) -> u16 {
    (b0 + 0x100 * b1) as u16
}

/// The word whose bytes, from the lowest up, are `b0`, `b1`, `b2`, `b3`.
pub open spec fn le32(b0: u8, b1: u8, b2: u8, b3: u8) -> u32 {
    (b0 + 0x100 * b1 + 0x1_0000 * b2 + 0x100_0000 * b3) as u32
}

/// Byte `i` of `value`, counted from the lowest.
pub open spec fn byte_of(value: u32, i: nat) -> u8 {
    if i == 0 {
        (value % 0x100) as u8
    } else if i == 1 {
        (value / 0x100 % 0x100) as u8
    } else if i == 2 {
        (value / 0x1_0000 % 0x100) as u8
    } else {
        (value / 0x100_0000 % 0x100) as u8
    }
}

impl Region {
    /// The `len` bytes from `addr` on lie inside the region.
    pub open spec fn covers(self, addr: u32, len: nat) -> bool {
        self.base <= addr && addr - self.base + len <= self.bytes.len()
    }

    /// The byte at `addr`, which lies inside the region.
    pub open spec fn byte_at(self, addr: int) -> u8 {
        self.bytes[addr - self.base]
    }

    /// The error that reports an access at `addr` as out of range.
    pub open spec fn out_of_range(self, addr: u32, access: AccessSize) -> MemError {
        MemError::OutOfRange { addr, access, base: self.base, size: self.bytes.len() as usize }
    }

    /// The error, if any, with which an access of width `access` at `addr`
    /// is refused: misalignment is found before a range violation.
    pub open spec fn refusal(self, addr: u32, access: AccessSize) -> Option<MemError> {
        if !aligned(addr, access) {
            Some(MemError::Unaligned { addr, access })
        } else if !self.covers(addr, access.spec_bytes()) {
            Some(self.out_of_range(addr, access))
        } else {
            None
        }
    }

    /// The result of reading a byte at `addr`.
    pub open spec fn load8(self, addr: u32) -> MemResult<u8> {
        match self.refusal(addr, AccessSize::Byte) {
            Some(e) => Err(e),
            None => Ok(self.byte_at(addr as int)),
        }
    }

    /// The result of reading a half-word at `addr`.
    pub open spec fn load16(self, addr: u32) -> MemResult<u16> {
        match self.refusal(addr, AccessSize::Half) {
            Some(e) => Err(e),
            None => Ok(le16(self.byte_at(addr as int), self.byte_at(addr + 1))),
        }
    }

    /// The result of reading a word at `addr`.
    pub open spec fn load32(self, addr: u32) -> MemResult<u32> {
        match self.refusal(addr, AccessSize::Word) {
            Some(e) => Err(e),
            None => Ok(
                le32(
                    self.byte_at(addr as int),
                    self.byte_at(addr + 1),
                    self.byte_at(addr + 2),
                    self.byte_at(addr + 3),
                ),
            ),
        }
    }

    /// The region with the bytes `data` written from `addr` on.
    pub open spec fn write(self, addr: u32, data: Seq<u8>) -> Region {
        Region {
            base: self.base,
            bytes: Seq::new(
                self.bytes.len(),
                |i: int|
                    if addr - self.base <= i < addr - self.base + data.len() {
                        data[i - (addr - self.base)]
                    } else {
                        self.bytes[i]
                    },
            ),
        }
    }

    /// The region after an attempt to store the byte `value` at `addr`.
    pub open spec fn store8(self, addr: u32, value: u8) -> Region {
        if self.refusal(addr, AccessSize::Byte).is_some() {
            self
        } else {
            self.write(addr, seq![value])
        }
    }

    /// The region after an attempt to store the half-word `value` at `addr`.
    pub open spec fn store16(self, addr: u32, value: u16) -> Region {
        if self.refusal(addr, AccessSize::Half).is_some() {
            self
        } else {
            self.write(addr, seq![byte_of(value as u32, 0), byte_of(value as u32, 1)])
        }
    }

    /// The region after an attempt to store the word `value` at `addr`.
    pub open spec fn store32(self, addr: u32, value: u32) -> Region {
        if self.refusal(addr, AccessSize::Word).is_some() {
            self
        } else {
            self.write(
                addr,
                seq![byte_of(value, 0), byte_of(value, 1), byte_of(value, 2), byte_of(value, 3)],
            )
        }
    }
}

/// A word is the little-endian composition of its four bytes, and a
/// half-word of its two.
pub proof fn lemma_le_bytes(value: u32)
    ensures
        le32(byte_of(value, 0), byte_of(value, 1), byte_of(value, 2), byte_of(value, 3)) == value,
        value < 0x1_0000 ==> le16(byte_of(value, 0), byte_of(value, 1)) == value,
{
    assert(value % 0x100 + 0x100 * (value / 0x100 % 0x100) + 0x1_0000 * (value / 0x1_0000 % 0x100)
        + 0x100_0000 * (value / 0x100_0000 % 0x100) == value && (value < 0x1_0000 ==> value
        % 0x100 + 0x100 * (value / 0x100 % 0x100) == value)) by (bit_vector);
}

/// A store that is not refused is read back unchanged by a load of the same
/// width at the same address; a refused store changes nothing.
pub proof fn lemma_store_load(m: Region, addr: u32, value: u32)
    ensures
        m.refusal(addr, AccessSize::Byte).is_none() ==> m.store8(addr, byte_of(value, 0)).load8(
            addr,
        ) == Ok::<u8, MemError>(byte_of(value, 0)),
        m.refusal(addr, AccessSize::Half).is_none() && value < 0x1_0000 ==> m.store16(
            addr,
            value as u16,
        ).load16(addr) == Ok::<u16, MemError>(value as u16),
        m.refusal(addr, AccessSize::Word).is_none() ==> m.store32(addr, value).load32(addr) == Ok::<
            u32,
            MemError,
        >(value),
        m.refusal(addr, AccessSize::Byte).is_some() ==> m.store8(addr, byte_of(value, 0)) == m,
        m.refusal(addr, AccessSize::Half).is_some() ==> m.store16(addr, value as u16) == m,
        m.refusal(addr, AccessSize::Word).is_some() ==> m.store32(addr, value) == m,
{
    lemma_le_bytes(value);
}

/// Shifting and masking take a word apart into its bytes, and shifting and
/// or-ing put it together again.
proof fn lemma_byte_ops(value: u32, b0: u8, b1: u8, b2: u8, b3: u8)
    by (bit_vector)
    ensures
        (value & 0xFF) == value % 0x100,
        ((value >> 8) & 0xFF) == value / 0x100 % 0x100,
        ((value >> 16) & 0xFF) == value / 0x1_0000 % 0x100,
        ((value >> 24) & 0xFF) == value / 0x100_0000 % 0x100,
        ((b0 as u32) | ((b1 as u32) << 8) | ((b2 as u32) << 16) | ((b3 as u32) << 24)) == b0
            + 0x100 * b1 + 0x1_0000 * b2 + 0x100_0000 * b3,
        ((b0 as u16) | ((b1 as u16) << 8)) == b0 + 0x100 * b1,
{
}

/// Byte `i` of `value`, counted from the lowest.
pub fn byte(value: u32, i: usize) -> (r: u8)
    requires
        i < 4,
    ensures
        r == byte_of(value, i as nat),
{
    proof {
        lemma_byte_ops(value, 0, 0, 0, 0);
    }
    if i == 0 {
        (value & 0xFF) as u8
    } else if i == 1 {
        ((value >> 8) & 0xFF) as u8
    } else if i == 2 {
        ((value >> 16) & 0xFF) as u8
    } else {
        ((value >> 24) & 0xFF) as u8
    }
}

/// The half-word with low byte `b0` and high byte `b1`.
pub fn half_from_bytes(b0: u8, b1: u8) -> (r: u16)
    ensures
        r == le16(b0, b1),
{
    proof {
        lemma_byte_ops(0, b0, b1, 0, 0);
    }
    (b0 as u16) | ((b1 as u16) << 8)
}

/// The word whose bytes, from the lowest up, are `b0`, `b1`, `b2`, `b3`.
pub fn word_from_bytes(b0: u8, b1: u8, b2: u8, b3: u8) -> (r: u32)
    ensures
        r == le32(b0, b1, b2, b3),
{
    proof {
        lemma_byte_ops(0, b0, b1, b2, b3);
    }
    (b0 as u32) | ((b1 as u32) << 8) | ((b2 as u32) << 16) | ((b3 as u32) << 24)
}

/// The interface of a memory.
pub trait Memory {
    /// The abstract state.
    spec fn view(&self) -> Region;

    /// Reads the byte at `addr`.
    fn load8(&self, addr: u32) -> (r: MemResult<u8>)
        ensures
            r == self@.load8(addr),
    ;

    /// Reads the little-endian half-word at `addr`.
    fn load16(&self, addr: u32) -> (r: MemResult<u16>)
        ensures
            r == self@.load16(addr),
    ;

    /// Reads the little-endian word at `addr`.
    fn load32(&self, addr: u32) -> (r: MemResult<u32>)
        ensures
            r == self@.load32(addr),
    ;

    /// Writes the byte `value` at `addr`.
    fn store8(&mut self, addr: u32, value: u8) -> (r: MemResult<()>)
        ensures
            final(self)@ == old(self)@.store8(addr, value),
            r == match old(self)@.refusal(addr, AccessSize::Byte) {
                Some(e) => Err::<(), MemError>(e),
                None => Ok(()),
            },
    ;

    /// Writes the half-word `value` at `addr`, low byte first.
    fn store16(&mut self, addr: u32, value: u16) -> (r: MemResult<()>)
        ensures
            final(self)@ == old(self)@.store16(addr, value),
            r == match old(self)@.refusal(addr, AccessSize::Half) {
                Some(e) => Err::<(), MemError>(e),
                None => Ok(()),
            },
    ;

    /// Writes the word `value` at `addr`, low byte first.
    fn store32(&mut self, addr: u32, value: u32) -> (r: MemResult<()>)
        ensures
            final(self)@ == old(self)@.store32(addr, value),
            r == match old(self)@.refusal(addr, AccessSize::Word) {
                Some(e) => Err::<(), MemError>(e),
                None => Ok(()),
            },
    ;
}

/// A memory that keeps its bytes in one vector.
pub struct FlatMemory {
    data: Vec<u8>,
    base_addr: u32,
}

impl FlatMemory {
    /// A zeroed region of `size` bytes that starts at `base_addr`.
    pub fn new(size: usize, base_addr: u32) -> (r: Self)
        ensures
            r@.base == base_addr,
            r@.bytes == Seq::new(size as nat, |i: int| 0u8),
    {
        let data = vec![0u8; size];
        assert(data@ =~= Seq::new(size as nat, |i: int| 0u8));
        FlatMemory { data, base_addr }
    }

    /// The address of the first byte.
    pub fn base_addr(&self) -> (r: u32)
        ensures
            r == self@.base,
    {
        self.base_addr
    }

    /// The number of bytes.
    pub fn size(&self) -> (r: usize)
        ensures
            r == self@.bytes.len(),
    {
        self.data.len()
    }

    /// Whether `addr` is a multiple of the width of `access`.
    fn ensure_aligned(addr: u32, access: AccessSize) -> (r: MemResult<()>)
        ensures
            r == (if aligned(addr, access) {
                Ok::<(), MemError>(())
            } else {
                Err(MemError::Unaligned { addr, access })
            }),
    {
        match access {
            AccessSize::Byte => Ok(()),
            AccessSize::Half => if addr % 2 == 0 {
                Ok(())
            } else {
                Err(MemError::Unaligned { addr, access })
            },
            AccessSize::Word => if addr % 4 == 0 {
                Ok(())
            } else {
                Err(MemError::Unaligned { addr, access })
            },
        }
    }

    /// The index of `addr` in the data, where the `len` bytes from `addr` on
    /// lie inside the region.
    fn bounds_check(&self, addr: u32, len: usize, access: AccessSize) -> (r: MemResult<usize>)
        ensures
            r == (if self@.covers(addr, len as nat) {
                Ok::<usize, MemError>((addr - self@.base) as usize)
            } else {
                Err(self@.out_of_range(addr, access))
            }),
    {
        let error = MemError::OutOfRange {
            addr,
            access,
            base: self.base_addr,
            size: self.data.len(),
        };
        let relative = match addr.checked_sub(self.base_addr) {
            Some(offset) => offset as usize,
            None => {
                return Err(error);
            },
        };
        let end = match relative.checked_add(len) {
            Some(end) => end,
            None => {
                return Err(error);
            },
        };
        if end > self.data.len() {
            return Err(error);
        }
        Ok(relative)
    }

    /// Copies `data` into the region from `addr` on.  Nothing is written
    /// unless all of it fits.
    pub fn write_bytes(&mut self, addr: u32, data: &[u8]) -> (r: MemResult<()>)
        ensures
            r == (if data@.len() == 0 || old(self)@.covers(addr, data@.len()) {
                Ok::<(), MemError>(())
            } else {
                Err(old(self)@.out_of_range(addr, AccessSize::Byte))
            }),
            final(self)@ == (if r.is_ok() && data@.len() > 0 {
                old(self)@.write(addr, data@)
            } else {
                old(self)@
            }),
    {
        if data.len() == 0 {
            return Ok(());
        }
        let start = match self.bounds_check(addr, data.len(), AccessSize::Byte) {
            Ok(start) => start,
            Err(e) => {
                return Err(e);
            },
        };
        let total = self.data.len();
        let mut i: usize = 0;
        while i < data.len()
            invariant
                i <= data@.len(),
                start + data@.len() <= self.data@.len() == total,
                start == addr - self.base_addr,
                self.base_addr == old(self).base_addr,
                self.data@.len() == old(self).data@.len(),
                forall|k: int|
                    0 <= k < self.data@.len() ==> #[trigger] self.data@[k] == (if start <= k < start
                        + i {
                        data@[k - start]
                    } else {
                        old(self).data@[k]
                    }),
            decreases data@.len() - i,
        {
            self.data[start + i] = data[i];
            i += 1;
        }
        assert(self@.bytes =~= old(self)@.write(addr, data@).bytes);
        Ok(())
    }

    /// Copies `len` bytes out of the region from `addr` on.
    pub fn read_bytes(&self, addr: u32, len: usize) -> (r: MemResult<Vec<u8>>)
        ensures
            match r {
                Ok(bytes) => (len == 0 || self@.covers(addr, len as nat)) && bytes@ == (if len
                    == 0 {
                    Seq::<u8>::empty()
                } else {
                    self@.bytes.subrange(addr - self@.base, addr - self@.base + len)
                }),
                Err(e) => len > 0 && !self@.covers(addr, len as nat) && e == self@.out_of_range(
                    addr,
                    AccessSize::Byte,
                ),
            },
    {
        if len == 0 {
            return Ok(Vec::new());
        }
        let start = match self.bounds_check(addr, len, AccessSize::Byte) {
            Ok(start) => start,
            Err(e) => {
                return Err(e);
            },
        };
        let total = self.data.len();
        let mut out: Vec<u8> = Vec::new();
        let mut i: usize = 0;
        while i < len
            invariant
                i <= len,
                start + len <= self.data@.len() == total,
                out@ == self.data@.subrange(start as int, start + i),
            decreases len - i,
        {
            out.push(self.data[start + i]);
            assert(self.data@.subrange(start as int, start + i + 1) =~= self.data@.subrange(
                start as int,
                start + i,
            ).push(self.data@[start + i]));
            i += 1;
        }
        Ok(out)
    }

    /// Sets the `len` bytes from `addr` on to `value`.  Nothing is written
    /// unless the whole range lies inside the region.
    pub fn fill(&mut self, addr: u32, len: usize, value: u8) -> (r: MemResult<()>)
        ensures
            r == (if len == 0 || old(self)@.covers(addr, len as nat) {
                Ok::<(), MemError>(())
            } else {
                Err(old(self)@.out_of_range(addr, AccessSize::Byte))
            }),
            final(self)@ == (if r.is_ok() && len > 0 {
                old(self)@.write(addr, Seq::new(len as nat, |i: int| value))
            } else {
                old(self)@
            }),
    {
        if len == 0 {
            return Ok(());
        }
        let start = match self.bounds_check(addr, len, AccessSize::Byte) {
            Ok(start) => start,
            Err(e) => {
                return Err(e);
            },
        };
        let total = self.data.len();
        let mut i: usize = 0;
        while i < len
            invariant
                i <= len,
                start + len <= self.data@.len() == total,
                start == addr - self.base_addr,
                self.base_addr == old(self).base_addr,
                self.data@.len() == old(self).data@.len(),
                forall|k: int|
                    0 <= k < self.data@.len() ==> #[trigger] self.data@[k] == (if start <= k < start
                        + i {
                        value
                    } else {
                        old(self).data@[k]
                    }),
            decreases len - i,
        {
            self.data[start + i] = value;
            i += 1;
        }
        assert(self@.bytes =~= old(self)@.write(addr, Seq::new(len as nat, |i: int| value)).bytes);
        Ok(())
    }
}

impl Memory for FlatMemory {
    closed spec fn view(&self) -> Region {
        Region { base: self.base_addr, bytes: self.data@ }
    }

    fn load8(&self, addr: u32) -> (r: MemResult<u8>) {
        let idx = match self.bounds_check(addr, 1, AccessSize::Byte) {
            Ok(idx) => idx,
            Err(e) => {
                return Err(e);
            },
        };
        Ok(self.data[idx])
    }

    fn load16(&self, addr: u32) -> (r: MemResult<u16>) {
        match Self::ensure_aligned(addr, AccessSize::Half) {
            Ok(()) => {},
            Err(e) => {
                return Err(e);
            },
        }
        let idx = match self.bounds_check(addr, 2, AccessSize::Half) {
            Ok(idx) => idx,
            Err(e) => {
                return Err(e);
            },
        };
        let (b0, b1) = (self.data[idx], self.data[idx + 1]);
        proof {
            lemma_byte_ops(0, b0, b1, 0, 0);
        }
        Ok((b0 as u16) | ((b1 as u16) << 8))
    }

    fn load32(&self, addr: u32) -> (r: MemResult<u32>) {
        match Self::ensure_aligned(addr, AccessSize::Word) {
            Ok(()) => {},
            Err(e) => {
                return Err(e);
            },
        }
        let idx = match self.bounds_check(addr, 4, AccessSize::Word) {
            Ok(idx) => idx,
            Err(e) => {
                return Err(e);
            },
        };
        let (b0, b1, b2, b3) = (
            self.data[idx],
            self.data[idx + 1],
            self.data[idx + 2],
            self.data[idx + 3],
        );
        proof {
            lemma_byte_ops(0, b0, b1, b2, b3);
        }
        Ok((b0 as u32) | ((b1 as u32) << 8) | ((b2 as u32) << 16) | ((b3 as u32) << 24))
    }

    fn store8(&mut self, addr: u32, value: u8) -> (r: MemResult<()>) {
        let idx = match self.bounds_check(addr, 1, AccessSize::Byte) {
            Ok(idx) => idx,
            Err(e) => {
                return Err(e);
            },
        };
        self.data[idx] = value;
        assert(self@.bytes =~= old(self)@.store8(addr, value).bytes);
        Ok(())
    }

    fn store16(&mut self, addr: u32, value: u16) -> (r: MemResult<()>) {
        match Self::ensure_aligned(addr, AccessSize::Half) {
            Ok(()) => {},
            Err(e) => {
                return Err(e);
            },
        }
        let idx = match self.bounds_check(addr, 2, AccessSize::Half) {
            Ok(idx) => idx,
            Err(e) => {
                return Err(e);
            },
        };
        proof {
            lemma_byte_ops(value as u32, 0, 0, 0, 0);
        }
        let wide = value as u32;
        self.data[idx] = (wide & 0xFF) as u8;
        self.data[idx + 1] = ((wide >> 8) & 0xFF) as u8;
        assert(self@.bytes =~= old(self)@.store16(addr, value).bytes);
        Ok(())
    }

    fn store32(&mut self, addr: u32, value: u32) -> (r: MemResult<()>) {
        match Self::ensure_aligned(addr, AccessSize::Word) {
            Ok(()) => {},
            Err(e) => {
                return Err(e);
            },
        }
        let idx = match self.bounds_check(addr, 4, AccessSize::Word) {
            Ok(idx) => idx,
            Err(e) => {
                return Err(e);
            },
        };
        proof {
            lemma_byte_ops(value, 0, 0, 0, 0);
        }
        self.data[idx] = (value & 0xFF) as u8;
        self.data[idx + 1] = ((value >> 8) & 0xFF) as u8;
        self.data[idx + 2] = ((value >> 16) & 0xFF) as u8;
        self.data[idx + 3] = ((value >> 24) & 0xFF) as u8;
        assert(self@.bytes =~= old(self)@.store32(addr, value).bytes);
        Ok(())
    }
}

} // verus!
