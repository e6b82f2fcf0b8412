//! Emulator state: the register file, flat memory and error categories.
//!
//! `Memory` is a fixed-capacity, zero-initialized, byte-addressable buffer.
//! Every access is bounds-checked: an address at or past the capacity is
//! reported as a fatal error, never clamped or wrapped.  `Emulator` bundles
//! the eight general-purpose registers, the flags word, the instruction
//! pointer and the memory into the single state value that every handler
//! mutates in place.

use vstd::prelude::*;

verus! {

/// Number of general-purpose registers.
pub const REGISTERS_COUNT: usize = 8;

/// Conventional boot-sector load address: images are loaded here, and the
/// instruction and stack pointers start here.
pub const BIOS_OFFSET: usize = 0x7c00;

/// The fatal error categories of the emulator: a memory access outside the
/// capacity, or an image that does not fit behind its load offset.
#[derive(Clone, Copy, Debug, PartialEq, Eq, Structural)]
pub enum EmuError {
    OutOfBounds,
    ImageTooLarge,
}

/// The eight general-purpose registers, in their canonical encoding order:
/// the position of a name in this enumeration is its x86 register number.
#[derive(Clone, Copy, Debug, PartialEq, Eq, Structural)]
pub enum Register {
    EAX,
    ECX,
    EDX,
    EBX,
    ESP,
    EBP,
    ESI,
    EDI,
}

impl Register {
    /// The register's index into the register file.
    pub open spec fn spec_index(self) -> int {
        match self {
            Register::EAX => 0,
            Register::ECX => 1,
            Register::EDX => 2,
            Register::EBX => 3,
            Register::ESP => 4,
            Register::EBP => 5,
            Register::ESI => 6,
            Register::EDI => 7,
        }
    }

    /// The register's index into the register file.
    pub fn index(self) -> (r: usize)
        ensures
            r == self.spec_index(),
    {
        match self {
            Register::EAX => 0,
            Register::ECX => 1,
            Register::EDX => 2,
            Register::EBX => 3,
            Register::ESP => 4,
            Register::EBP => 5,
            Register::ESI => 6,
            Register::EDI => 7,
        }
    }
}

/// The little-endian 32-bit value of the four bytes of `mem` starting at
/// `addr`: least-significant byte at the lowest address.
pub open spec fn u32_le_at(mem: Seq<u8>, addr: int) -> u32 {
    (mem[addr] as u32) | ((mem[addr + 1] as u32) << 8) | ((mem[addr + 2] as u32) << 16) | ((mem[
        addr + 3
    ] as u32) << 24)
}

/// Byte `k` (0 = least significant) of the little-endian encoding of `v`.
pub open spec fn u32_byte(v: u32, k: int) -> u8 {
    (v >> (8 * k)) as u8
}

/// `mem` with the little-endian encoding of `v` stored at `addr`.
pub open spec fn store_u32_le(mem: Seq<u8>, addr: int, v: u32) -> Seq<u8> {
    mem.update(addr, u32_byte(v, 0)).update(addr + 1, u32_byte(v, 1)).update(
        addr + 2,
        u32_byte(v, 2),
    ).update(addr + 3, u32_byte(v, 3))
}

/// `mem` with `image` copied in starting at `offset`; everything outside
/// that window is untouched.
pub open spec fn loaded(mem: Seq<u8>, offset: int, image: Seq<u8>) -> Seq<u8> {
    mem.subrange(0, offset) + image + mem.subrange(offset + image.len(), mem.len() as int)
}

/// Reading four bytes little-endian is the exact inverse of storing the
/// bytes `[b0, b1, b2, b3]` at the same address: the value read back is
/// `b0 | b1<<8 | b2<<16 | b3<<24`.
pub proof fn lemma_read_u32_le_inverts_load(mem: Seq<u8>, offset: int, image: Seq<u8>)
    requires
        image.len() == 4,
        0 <= offset,
        offset + 4 <= mem.len(),
    ensures
        u32_le_at(loaded(mem, offset, image), offset) == (image[0] as u32) | ((image[1] as u32)
            << 8) | ((image[2] as u32) << 16) | ((image[3] as u32) << 24),
{
    let post = loaded(mem, offset, image);
    assert(post[offset] == image[0]);
    assert(post[offset + 1] == image[1]);
    assert(post[offset + 2] == image[2]);
    assert(post[offset + 3] == image[3]);
}

/// Fixed-capacity, zero-initialized, byte-addressable memory.  The capacity
/// never changes after creation; every access is bounds-checked.
pub struct Memory {
    bytes: Vec<u8>,
}

impl View for Memory {
    type V = Seq<u8>;

    closed spec fn view(&self) -> Seq<u8> {
        self.bytes@
    }
}

impl Memory {
    /// A memory of `size` bytes, all zero.
    pub fn new(size: usize) -> (m: Memory)
        ensures
            m@ == Seq::new(size as nat, |i: int| 0u8),
    {
        let mut bytes: Vec<u8> = Vec::new();
        while bytes.len() < size
            invariant
                bytes@.len() <= size,
                forall|i: int| 0 <= i < bytes@.len() ==> bytes@[i] == 0u8,
            decreases size - bytes@.len(),
        {
            bytes.push(0);
        }
        let m = Memory { bytes };
        proof {
            assert(m@ =~= Seq::new(size as nat, |i: int| 0u8));
        }
        m
    }

    /// The capacity in bytes.
    pub fn len(&self) -> (r: usize)
        ensures
            r == self@.len(),
    {
        self.bytes.len()
    }

    /// The byte at `addr`, for callers that have already established that
    /// `addr` is in bounds.
    pub fn byte_at(&self, addr: usize) -> (r: u8)
        requires
            addr < self@.len(),
        ensures
            r == self@[addr as int],
    {
        self.bytes[addr]
    }

    /// The little-endian 32-bit value of the four bytes starting at `addr`,
    /// for callers that have already established that all four bytes are in
    /// bounds.
    pub fn word_at(&self, addr: usize) -> (r: u32)
        requires
            addr + 4 <= self@.len(),
        ensures
            r == u32_le_at(self@, addr as int),
    {
        let n = self.bytes.len();
        assert(addr + 4 <= n);
        let b0 = self.bytes[addr];
        let b1 = self.bytes[addr + 1];
        let b2 = self.bytes[addr + 2];
        let b3 = self.bytes[addr + 3];
        (b0 as u32) | ((b1 as u32) << 8) | ((b2 as u32) << 16) | ((b3 as u32) << 24)
    }

    /// The byte at `addr`, or the out-of-bounds error if `addr` is at or
    /// past the capacity.
    pub fn read_byte(&self, addr: usize) -> (r: Result<u8, EmuError>)
        ensures
            r == (if addr < self@.len() {
                Result::<u8, EmuError>::Ok(self@[addr as int])
            } else {
                Result::<u8, EmuError>::Err(EmuError::OutOfBounds)
            }),
    {
        if addr < self.bytes.len() {
            Ok(self.bytes[addr])
        } else {
            Err(EmuError::OutOfBounds)
        }
    }

    /// The little-endian 32-bit value of the four bytes starting at `addr`,
    /// or the out-of-bounds error unless all four bytes are in bounds.
    pub fn read_u32_le(&self, addr: usize) -> (r: Result<u32, EmuError>)
        ensures
            r == (if addr + 4 <= self@.len() {
                Result::<u32, EmuError>::Ok(u32_le_at(self@, addr as int))
            } else {
                Result::<u32, EmuError>::Err(EmuError::OutOfBounds)
            }),
    {
        if addr < self.bytes.len() && self.bytes.len() - addr >= 4 {
            Ok(self.word_at(addr))
        } else {
            Err(EmuError::OutOfBounds)
        }
    }

    /// Store `v` at `addr` as four little-endian bytes, or report the
    /// out-of-bounds error (and change nothing) unless all four bytes are in
    /// bounds.
    pub fn write_u32_le(&mut self, addr: usize, v: u32) -> (r: Result<(), EmuError>)
        ensures
            r == (if addr + 4 <= old(self)@.len() {
                Result::<(), EmuError>::Ok(())
            } else {
                Result::<(), EmuError>::Err(EmuError::OutOfBounds)
            }),
            (r is Ok) ==> final(self)@ == store_u32_le(old(self)@, addr as int, v),
            (r is Err) ==> final(self)@ == old(self)@,
    {
        if addr < self.bytes.len() && self.bytes.len() - addr >= 4 {
            let b0 = low_byte(v);
            let b1 = low_byte(v >> 8);
            let b2 = low_byte(v >> 16);
            let b3 = low_byte(v >> 24);
            assert(b1 == u32_byte(v, 1) && b2 == u32_byte(v, 2) && b3 == u32_byte(v, 3))
                by (bit_vector)
                requires
                    b0 == (v & 0xff) as u8 && b1 == ((v >> 8) & 0xff) as u8 && b2 == ((v >> 16)
                        & 0xff) as u8 && b3 == ((v >> 24) & 0xff) as u8,
            ;
            assert(b0 == u32_byte(v, 0)) by (bit_vector)
                requires
                    b0 == (v & 0xff) as u8,
            ;
            self.bytes[addr] = b0;
            self.bytes[addr + 1] = b1;
            self.bytes[addr + 2] = b2;
            self.bytes[addr + 3] = b3;
            Ok(())
        } else {
            Err(EmuError::OutOfBounds)
        }
    }

    /// Copy `image` into memory starting at `offset`.  If the image does not
    /// fit below the capacity, nothing is written and the image-too-large
    /// error is reported.
    pub fn load(&mut self, offset: usize, image: &[u8]) -> (r: Result<(), EmuError>)
        ensures
            r == (if offset + image@.len() <= old(self)@.len() {
                Result::<(), EmuError>::Ok(())
            } else {
                Result::<(), EmuError>::Err(EmuError::ImageTooLarge)
            }),
            (r is Ok) ==> final(self)@ == loaded(old(self)@, offset as int, image@),
            (r is Err) ==> final(self)@ == old(self)@,
    {
        if offset <= self.bytes.len() && self.bytes.len() - offset >= image.len() {
            let n = self.bytes.len();
            let mut i: usize = 0;
            while i < image.len()
                invariant
                    0 <= i <= image@.len(),
                    offset + image@.len() <= n,
                    self.bytes@.len() == n,
                    self.bytes@.len() == old(self)@.len(),
                    forall|j: int|
                        0 <= j < i ==> self.bytes@[offset + j] == image@[j],
                    forall|j: int|
                        0 <= j < self.bytes@.len() && !(offset <= j < offset + i)
                            ==> self.bytes@[j] == old(self)@[j],
                decreases image@.len() - i,
            {
                self.bytes[offset + i] = image[i];
                i = i + 1;
            }
            proof {
                assert(self@ =~= loaded(old(self)@, offset as int, image@));
            }
            Ok(())
        } else {
            Err(EmuError::ImageTooLarge)
        }
    }
}

/// The least-significant byte of `v`.
fn low_byte(v: u32) -> (r: u8)
    ensures
        r == (v & 0xff) as u8,
{
    proof {
        assert((v & 0xff) < 0x100) by (bit_vector);
    }
    (v & 0xff) as u8
}

/// The full emulator state: general-purpose registers, flags word,
/// instruction pointer and memory.
pub struct Emulator {
    /// General-purpose registers, indexed by register number.
    pub registers: [u32; REGISTERS_COUNT],
    /// The EFLAGS word.
    pub eflags: u32,
    /// The instruction pointer: the address of the next opcode to fetch.
    pub eip: u32,
    /// Flat byte-addressable memory.
    pub memory: Memory,
}

impl Emulator {
    /// The value of a general-purpose register.
    pub fn get(&self, reg: Register) -> (r: u32)
        ensures
            r == self.registers@[reg.spec_index()],
    {
        self.registers[reg.index()]
    }

    /// Overwrite a general-purpose register.
    pub fn set(&mut self, reg: Register, value: u32)
        ensures
            final(self).registers@ == old(self).registers@.update(reg.spec_index(), value),
            final(self).eflags == old(self).eflags,
            final(self).eip == old(self).eip,
            final(self).memory@ == old(self).memory@,
    {
        self.registers[reg.index()] = value;
    }
}

/// A fresh emulator: all registers zero except the stack pointer, flags
/// zero, the instruction pointer as given, and `mem_size` bytes of zeroed
/// memory.
pub fn create_emu(mem_size: usize, eip: u32, esp: u32) -> (emu: Emulator)
    ensures
        emu.registers@ == seq![0u32, 0u32, 0u32, 0u32, esp, 0u32, 0u32, 0u32],
        emu.eflags == 0,
        emu.eip == eip,
        emu.memory@ == Seq::new(mem_size as nat, |i: int| 0u8),
{
    let mut emu = Emulator {
        registers: [0; REGISTERS_COUNT],
        eflags: 0,
        eip,
        memory: Memory::new(mem_size),
    };
    emu.set(Register::ESP, esp);
    proof {
        assert(emu.registers@ =~= seq![0u32, 0u32, 0u32, 0u32, esp, 0u32, 0u32, 0u32]);
    }
    emu
}

} // verus!
