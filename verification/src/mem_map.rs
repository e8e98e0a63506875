//! Address-space dispatch: 15 region descriptors routing a 32-bit logical
//! address to backing storage or a special read/write policy.
//!
//! The region id is the top 4 bits of the 32-bit address. Each descriptor
//! carries an address mask, a base offset into the shared backing buffer and
//! a read/write kind. The BIOS region is readable from backing storage only
//! while the program counter still lies in the BIOS; otherwise reads past the
//! protected boundary return a fixed decoy pattern and reads within it
//! return zero. Writes to read-only or unassigned regions are discarded.

use vstd::prelude::*;
use crate::codec::{le16_at, le32_at, read_le_8, read_le_16, read_le_32, write_le_8, write_le_16,
    write_le_32, enc16_at, enc32_at};

verus! {

/// Total size of the shared backing buffer: the BIOS span followed by the
/// work-RAM span, each with enough slack for a 32-bit access at its
/// highest masked offset.
pub const MEMORY_SIZE: usize = 0x44008;

/// Byte offset of the work-RAM region's backing storage in the buffer.
pub const WRAM_BASE: u32 = 0x4004;

/// Address mask of the BIOS region.
pub const BIOS_MASK: u32 = 0x3FFF;

/// Address mask of the work-RAM region.
pub const WRAM_MASK: u32 = 0x3FFFF;

/// Addresses at or below this offset read as zero once execution has left
/// the BIOS; addresses past it read as the decoy pattern.
pub const BIOS_PROTECT_BOUND: u32 = 0x4000;

/// How reads of a region are served.
#[derive(Clone, Copy, Debug, PartialEq, Eq, Structural)]
pub enum ReadKind {
    /// Backing storage, gated by the BIOS protection policy.
    Bios,
    /// Reads return zero.
    Unreadable,
    /// Backing storage at the masked address.
    Generic,
}

/// How writes to a region are served.
#[derive(Clone, Copy, Debug, PartialEq, Eq, Structural)]
pub enum WriteKind {
    /// Writes are silently discarded.
    Unwritable,
    /// Backing storage at the masked address.
    Generic,
}

/// One region descriptor of the dispatch table.
#[derive(Clone, Copy, Debug, PartialEq, Eq, Structural)]
pub struct MemAccess {
    /// Mask applied to the address's low bits before indexing storage.
    pub mask: u32,
    /// Offset of this region's backing storage in the shared buffer.
    pub base: u32,
    /// Read policy of the region.
    pub read_kind: ReadKind,
    /// Write policy of the region.
    pub write_kind: WriteKind,
}

impl MemAccess {
    /// Builds one region descriptor.
    pub fn new(mask: u32, base: u32, read_kind: ReadKind, write_kind: WriteKind) -> (r: MemAccess)
        ensures
            r == (MemAccess { mask, base, read_kind, write_kind }),
    {
        MemAccess { mask, base, read_kind, write_kind }
    }
}

/// Region id of an address: its top 4 bits.
pub open spec fn region_of(address: int) -> int {
    (address / 0x1000000) % 16
}

/// The fixed dispatch table entry for region `i`: region 0 is the BIOS,
/// region 2 the work RAM, every other region is unassigned.
pub open spec fn access_entry(i: int) -> MemAccess {
    if i == 0 {
        MemAccess {
            mask: BIOS_MASK,
            base: 0,
            read_kind: ReadKind::Bios,
            write_kind: WriteKind::Unwritable,
        }
    } else if i == 2 {
        MemAccess {
            mask: WRAM_MASK,
            base: WRAM_BASE,
            read_kind: ReadKind::Generic,
            write_kind: WriteKind::Generic,
        }
    } else {
        MemAccess {
            mask: 0,
            base: 0,
            read_kind: ReadKind::Unreadable,
            write_kind: WriteKind::Unwritable,
        }
    }
}

/// True once the program counter's top byte is nonzero, i.e. execution has
/// left the BIOS region.
pub open spec fn pc_outside_bios(reg15: u32) -> bool {
    reg15 >= 0x1000000
}

/// Result of an 8-bit read under the BIOS protection policy.
pub open spec fn bios_read8_spec(mem: Seq<u8>, protected: Seq<u8>, reg15: u32, address: u32) -> u8 {
    if pc_outside_bios(reg15) {
        if address > BIOS_PROTECT_BOUND {
            protected[(address & 0x3) as int]
        } else {
            0
        }
    } else {
        mem[(address & BIOS_MASK) as int]
    }
}

/// Result of a 16-bit read under the BIOS protection policy.
pub open spec fn bios_read16_spec(mem: Seq<u8>, protected: Seq<u8>, reg15: u32, address: u32) -> u16 {
    if pc_outside_bios(reg15) {
        if address > BIOS_PROTECT_BOUND {
            le16_at(protected, (address & 0x2) as int)
        } else {
            0
        }
    } else {
        le16_at(mem, (address & BIOS_MASK) as int)
    }
}

/// Result of a 32-bit read under the BIOS protection policy.
pub open spec fn bios_read32_spec(mem: Seq<u8>, protected: Seq<u8>, reg15: u32, address: u32) -> u32 {
    if pc_outside_bios(reg15) {
        if address > BIOS_PROTECT_BOUND {
            le32_at(protected, 0)
        } else {
            0
        }
    } else {
        le32_at(mem, (address & BIOS_MASK) as int)
    }
}

/// Result of an 8-bit read dispatched through the region table.
pub open spec fn read8_spec(mem: Seq<u8>, protected: Seq<u8>, reg15: u32, address: u32) -> u8 {
    let r = region_of(address as int);
    if r >= 15 {
        0
    } else {
        let e = access_entry(r);
        match e.read_kind {
            ReadKind::Bios => bios_read8_spec(mem, protected, reg15, address),
            ReadKind::Unreadable => 0,
            ReadKind::Generic => mem[e.base + (address & e.mask)],
        }
    }
}

/// Result of a 16-bit read dispatched through the region table.
pub open spec fn read16_spec(mem: Seq<u8>, protected: Seq<u8>, reg15: u32, address: u32) -> u16 {
    let r = region_of(address as int);
    if r >= 15 {
        0
    } else {
        let e = access_entry(r);
        match e.read_kind {
            ReadKind::Bios => bios_read16_spec(mem, protected, reg15, address),
            ReadKind::Unreadable => 0,
            ReadKind::Generic => le16_at(mem, e.base + (address & e.mask)),
        }
    }
}

/// Result of a 32-bit read dispatched through the region table.
pub open spec fn read32_spec(mem: Seq<u8>, protected: Seq<u8>, reg15: u32, address: u32) -> u32 {
    let r = region_of(address as int);
    if r >= 15 {
        0
    } else {
        let e = access_entry(r);
        match e.read_kind {
            ReadKind::Bios => bios_read32_spec(mem, protected, reg15, address),
            ReadKind::Unreadable => 0,
            ReadKind::Generic => le32_at(mem, e.base + (address & e.mask)),
        }
    }
}

/// Backing buffer after an 8-bit write dispatched through the region table.
pub open spec fn write8_spec(mem: Seq<u8>, address: u32, value: u8) -> Seq<u8> {
    let r = region_of(address as int);
    if r >= 15 {
        mem
    } else {
        let e = access_entry(r);
        match e.write_kind {
            WriteKind::Unwritable => mem,
            WriteKind::Generic => mem.update(e.base + (address & e.mask), value),
        }
    }
}

/// Backing buffer after a 16-bit write dispatched through the region table.
pub open spec fn write16_spec(mem: Seq<u8>, address: u32, value: u16) -> Seq<u8> {
    let r = region_of(address as int);
    if r >= 15 {
        mem
    } else {
        let e = access_entry(r);
        match e.write_kind {
            WriteKind::Unwritable => mem,
            WriteKind::Generic => enc16_at(mem, e.base + (address & e.mask), value),
        }
    }
}

/// Backing buffer after a 32-bit write dispatched through the region table.
pub open spec fn write32_spec(mem: Seq<u8>, address: u32, value: u32) -> Seq<u8> {
    let r = region_of(address as int);
    if r >= 15 {
        mem
    } else {
        let e = access_entry(r);
        match e.write_kind {
            WriteKind::Unwritable => mem,
            WriteKind::Generic => enc32_at(mem, e.base + (address & e.mask), value),
        }
    }
}

/// A masked value never exceeds the mask.
pub proof fn lemma_and_mask_le(a: u32, m: u32)
    by (bit_vector)
    ensures
        a & m <= m,
{
}

/// The address-dispatch layer: the fixed region table and the backing
/// buffer the readable and writable regions index.
pub struct MemMap {
    /// The 15 region descriptors, fixed after construction.
    pub mem_access: Vec<MemAccess>,
    /// Shared backing storage of the BIOS and work-RAM regions.
    pub memory: Vec<u8>,
}

impl MemMap {
    /// Construction invariant: the table holds exactly the fixed region
    /// descriptors and the buffer is sized so every region's mask stays in
    /// bounds for a 32-bit access.
    pub open spec fn wf(self) -> bool {
        &&& self.mem_access.len() == 15
        &&& forall|i: int| 0 <= i < 15 ==> #[trigger] self.mem_access@[i] == access_entry(i)
        &&& self.memory.len() == MEMORY_SIZE
    }

    /// Builds the dispatch table with a zeroed backing buffer.
    pub fn new() -> (r: MemMap)
        ensures
            r.wf(),
            r.memory@ == Seq::new(MEMORY_SIZE as nat, |i: int| 0u8),
    {
        let mut mem_access: Vec<MemAccess> = Vec::new();
        mem_access.push(MemAccess::new(BIOS_MASK, 0, ReadKind::Bios, WriteKind::Unwritable));
        mem_access.push(MemAccess::new(0, 0, ReadKind::Unreadable, WriteKind::Unwritable));
        mem_access.push(MemAccess::new(WRAM_MASK, WRAM_BASE, ReadKind::Generic, WriteKind::Generic));
        let mut i: usize = 3;
        while i < 15
            invariant
                3 <= i <= 15,
                mem_access.len() == i,
                forall|j: int| 0 <= j < i ==> #[trigger] mem_access@[j] == access_entry(j),
            decreases 15 - i,
        {
            mem_access.push(MemAccess::new(0, 0, ReadKind::Unreadable, WriteKind::Unwritable));
            i = i + 1;
        }
        let mut memory: Vec<u8> = Vec::new();
        let mut k: usize = 0;
        while k < MEMORY_SIZE
            invariant
                k <= MEMORY_SIZE,
                memory@ == Seq::new(k as nat, |i: int| 0u8),
            decreases MEMORY_SIZE - k,
        {
            memory.push(0);
            proof {
                assert(memory@ =~= Seq::new((k + 1) as nat, |i: int| 0u8));
            }
            k = k + 1;
        }
        MemMap { mem_access, memory }
    }

    /// Copies `data` into the backing buffer at `offset`; the external
    /// loader uses this to populate the BIOS and cartridge regions at
    /// construction.
    pub fn load(&mut self, offset: u32, data: &Vec<u8>)
        requires
            offset + data@.len() <= old(self).memory@.len(),
        ensures
            final(self).mem_access == old(self).mem_access,
            final(self).memory@.len() == old(self).memory@.len(),
            forall|i: int|
                0 <= i < data@.len() ==> final(self).memory@[offset + i] == data@[i],
            forall|i: int|
                0 <= i < old(self).memory@.len() && !(offset <= i < offset + data@.len())
                    ==> final(self).memory@[i] == old(self).memory@[i],
    {
        let mut k: usize = 0;
        while k < data.len()
            invariant
                k <= data@.len(),
                offset + data@.len() <= self.memory@.len(),
                self.mem_access == old(self).mem_access,
                self.memory@.len() == old(self).memory@.len(),
                forall|i: int| 0 <= i < k ==> self.memory@[offset + i] == data@[i],
                forall|i: int|
                    0 <= i < old(self).memory@.len() && !(offset <= i < offset + k)
                        ==> self.memory@[i] == old(self).memory@[i],
            decreases data@.len() - k,
        {
            let n: usize = self.memory.len();
            let b = data[k];
            self.memory.set(offset as usize + k, b);
            k = k + 1;
        }
    }

    /// Reads an 8-bit value at `address` through the dispatch table.
    /// `protected` is the fixed decoy pattern; `reg15` the program counter.
    pub fn read_8(&self, address: u32, protected: &Vec<u8>, reg15: u32) -> (r: u8)
        requires
            self.wf(),
            protected@.len() == 4,
        ensures
            r == read8_spec(self.memory@, protected@, reg15, address),
    {
        let region: usize = ((address as usize) / 0x1000000) % 16;
        if region >= 15 {
            return 0;
        }
        let mask = self.mem_access[region].mask;
        let base = self.mem_access[region].base;
        proof {
            lemma_and_mask_le(address, mask);
            lemma_and_mask_le(address, 0x3);
        }
        match self.mem_access[region].read_kind {
            ReadKind::Bios => {
                if reg15 >= 0x1000000 {
                    if address > BIOS_PROTECT_BOUND {
                        read_le_8(protected, address & 0x3)
                    } else {
                        0
                    }
                } else {
                    read_le_8(&self.memory, base + (address & mask))
                }
            },
            ReadKind::Unreadable => 0,
            ReadKind::Generic => read_le_8(&self.memory, base + (address & mask)),
        }
    }

    /// Reads a 16-bit value at `address` through the dispatch table.
    pub fn read_16(&self, address: u32, protected: &Vec<u8>, reg15: u32) -> (r: u16)
        requires
            self.wf(),
            protected@.len() == 4,
        ensures
            r == read16_spec(self.memory@, protected@, reg15, address),
    {
        let region: usize = ((address as usize) / 0x1000000) % 16;
        if region >= 15 {
            return 0;
        }
        let mask = self.mem_access[region].mask;
        let base = self.mem_access[region].base;
        proof {
            lemma_and_mask_le(address, mask);
            lemma_and_mask_le(address, 0x2);
        }
        match self.mem_access[region].read_kind {
            ReadKind::Bios => {
                if reg15 >= 0x1000000 {
                    if address > BIOS_PROTECT_BOUND {
                        read_le_16(protected, address & 0x2)
                    } else {
                        0
                    }
                } else {
                    read_le_16(&self.memory, base + (address & mask))
                }
            },
            ReadKind::Unreadable => 0,
            ReadKind::Generic => read_le_16(&self.memory, base + (address & mask)),
        }
    }

    /// Reads a 32-bit value at `address` through the dispatch table.
    pub fn read_32(&self, address: u32, protected: &Vec<u8>, reg15: u32) -> (r: u32)
        requires
            self.wf(),
            protected@.len() == 4,
        ensures
            r == read32_spec(self.memory@, protected@, reg15, address),
    {
        let region: usize = ((address as usize) / 0x1000000) % 16;
        if region >= 15 {
            return 0;
        }
        let mask = self.mem_access[region].mask;
        let base = self.mem_access[region].base;
        proof {
            lemma_and_mask_le(address, mask);
        }
        match self.mem_access[region].read_kind {
            ReadKind::Bios => {
                if reg15 >= 0x1000000 {
                    if address > BIOS_PROTECT_BOUND {
                        read_le_32(protected, 0)
                    } else {
                        0
                    }
                } else {
                    read_le_32(&self.memory, base + (address & mask))
                }
            },
            ReadKind::Unreadable => 0,
            ReadKind::Generic => read_le_32(&self.memory, base + (address & mask)),
        }
    }

    /// Writes an 8-bit value at `address` through the dispatch table;
    /// read-only and unassigned regions discard the write.
    pub fn write_8(&mut self, address: u32, value: u8)
        requires
            old(self).wf(),
        ensures
            final(self).wf(),
            final(self).mem_access == old(self).mem_access,
            final(self).memory@ == write8_spec(old(self).memory@, address, value),
    {
        let region: usize = ((address as usize) / 0x1000000) % 16;
        if region >= 15 {
            return ;
        }
        let mask = self.mem_access[region].mask;
        let base = self.mem_access[region].base;
        proof {
            lemma_and_mask_le(address, mask);
        }
        match self.mem_access[region].write_kind {
            WriteKind::Unwritable => {},
            WriteKind::Generic => write_le_8(&mut self.memory, base + (address & mask), value),
        }
    }

    /// Writes a 16-bit value at `address` through the dispatch table;
    /// read-only and unassigned regions discard the write.
    pub fn write_16(&mut self, address: u32, value: u16)
        requires
            old(self).wf(),
        ensures
            final(self).wf(),
            final(self).mem_access == old(self).mem_access,
            final(self).memory@ == write16_spec(old(self).memory@, address, value),
    {
        let region: usize = ((address as usize) / 0x1000000) % 16;
        if region >= 15 {
            return ;
        }
        let mask = self.mem_access[region].mask;
        let base = self.mem_access[region].base;
        proof {
            lemma_and_mask_le(address, mask);
        }
        match self.mem_access[region].write_kind {
            WriteKind::Unwritable => {},
            WriteKind::Generic => write_le_16(&mut self.memory, base + (address & mask), value),
        }
    }

    /// Writes a 32-bit value at `address` through the dispatch table;
    /// read-only and unassigned regions discard the write.
    pub fn write_32(&mut self, address: u32, value: u32)
        requires
            old(self).wf(),
        ensures
            final(self).wf(),
            final(self).mem_access == old(self).mem_access,
            final(self).memory@ == write32_spec(old(self).memory@, address, value),
    {
        let region: usize = ((address as usize) / 0x1000000) % 16;
        if region >= 15 {
            return ;
        }
        let mask = self.mem_access[region].mask;
        let base = self.mem_access[region].base;
        proof {
            lemma_and_mask_le(address, mask);
        }
        match self.mem_access[region].write_kind {
            WriteKind::Unwritable => {},
            WriteKind::Generic => write_le_32(&mut self.memory, base + (address & mask), value),
        }
    }

    /// Discards a write to a read-only region.
    pub fn write_unwritable(&mut self)
        ensures
            *final(self) == *old(self),
    {
    }

    /// Law: once the program counter's top byte is nonzero, a BIOS-region
    /// read past the protected boundary returns the decoy pattern; while
    /// the top byte is zero it returns the true backing-store contents.
    pub proof fn lemma_bios_read_policy(mem: Seq<u8>, protected: Seq<u8>, reg15: u32, address: u32)
        requires
            region_of(address as int) == 0,
        ensures
            pc_outside_bios(reg15) && address > BIOS_PROTECT_BOUND ==> {
                &&& read8_spec(mem, protected, reg15, address) == protected[(address & 0x3) as int]
                &&& read16_spec(mem, protected, reg15, address) == le16_at(
                    protected,
                    (address & 0x2) as int,
                )
                &&& read32_spec(mem, protected, reg15, address) == le32_at(protected, 0)
            },
            pc_outside_bios(reg15) && address <= BIOS_PROTECT_BOUND ==> {
                &&& read8_spec(mem, protected, reg15, address) == 0
                &&& read16_spec(mem, protected, reg15, address) == 0
                &&& read32_spec(mem, protected, reg15, address) == 0
            },
            !pc_outside_bios(reg15) ==> {
                &&& read8_spec(mem, protected, reg15, address) == mem[(address & BIOS_MASK) as int]
                &&& read16_spec(mem, protected, reg15, address) == le16_at(
                    mem,
                    (address & BIOS_MASK) as int,
                )
                &&& read32_spec(mem, protected, reg15, address) == le32_at(
                    mem,
                    (address & BIOS_MASK) as int,
                )
            },
    {
    }
}

} // verus!
