//! The structural model of a parsed object file.
//!
//! An upstream binary-format parser produces these values: the declared
//! fields of every load segment and section, plus the raw bytes of the
//! section-name string table. Only the fields this library's classification
//! reads are modelled, as plain values.

use crate::range::MRange;
use vstd::prelude::*;

verus! {

/// Loadable segment: the type code of the program-header table itself.
pub const PT_PHDR: u32 = 6;
/// Loadable segment: the type code of the interpreter-path entry.
pub const PT_INTERP: u32 = 3;
/// Loadable segment: the type code of a note entry.
pub const PT_NOTE: u32 = 4;
/// Loadable segment: the type code of the dynamic-linking table.
pub const PT_DYNAMIC: u32 = 2;
/// Loadable segment: the type code of a loadable entry.
pub const PT_LOAD: u32 = 1;

/// Program-header flag bit: executable.
pub const PF_X: u32 = 1;
/// Program-header flag bit: writable.
pub const PF_W: u32 = 2;
/// Program-header flag bit: readable.
pub const PF_R: u32 = 4;

/// Section type code: a note.
pub const SHT_NOTE: u32 = 7;
/// Section type code: relocation entries without explicit addends.
pub const SHT_REL: u32 = 9;
/// Section type code: relocation entries with explicit addends.
pub const SHT_RELA: u32 = 4;
/// Section type code: the dynamic-linking table.
pub const SHT_DYNAMIC: u32 = 6;
/// Section type code: the static symbol table.
pub const SHT_SYMTAB: u32 = 2;
/// Section type code: the dynamic symbol table.
pub const SHT_DYNSYM: u32 = 11;
/// Section type code: a string table.
pub const SHT_STRTAB: u32 = 3;
/// Section type code: declared size with no file storage, zero-filled at load.
pub const SHT_NOBITS: u32 = 8;
/// Section type code: program bits occupying file space.
pub const SHT_PROGBITS: u32 = 1;
/// Section type code: an array of termination functions.
pub const SHT_FINI_ARRAY: u32 = 15;
/// Section type code: an array of initialization functions.
pub const SHT_INIT_ARRAY: u32 = 14;

/// Section flag bit: occupies memory during execution.
pub const SHF_ALLOC: u32 = 2;
/// Section flag bit: writable while mapped.
pub const SHF_WRITE: u32 = 1;
/// Section flag bit: holds executable instructions.
pub const SHF_EXECINSTR: u32 = 4;

/// `a + b` on 64-bit addresses, saturating at the top of the address space.
pub open spec fn sat_add(a: u64, b: u64) -> u64 {
    if a + b > u64::MAX {
        u64::MAX
    } else {
        (a + b) as u64
    }
}

/// A load-segment descriptor: the declared fields this library reads.
#[derive(Debug, Copy, Clone, PartialEq, Eq, Structural)]
pub struct ProgramHeader {
    /// The structural type code.
    pub p_type: u32,
    /// The read/write/execute flag bits.
    pub p_flags: u32,
    /// The declared offset of the segment's bytes within the file.
    pub p_offset: u64,
    /// The declared virtual address of the segment once loaded.
    pub p_vaddr: u64,
    /// The declared number of bytes the segment occupies in the file.
    pub p_filesz: u64,
    /// The declared number of bytes the segment occupies in memory.
    pub p_memsz: u64,
}

impl ProgramHeader {
    pub open spec fn spec_is_read(self) -> bool {
        self.p_flags & PF_R != 0
    }

    pub open spec fn spec_is_write(self) -> bool {
        self.p_flags & PF_W != 0
    }

    pub open spec fn spec_is_executable(self) -> bool {
        self.p_flags & PF_X != 0
    }

    /// Whether this segment is readable once loaded.
    pub fn is_read(&self) -> (r: bool)
        ensures
            r == self.spec_is_read(),
    {
        self.p_flags & PF_R != 0
    }

    /// Whether this segment is writable once loaded.
    pub fn is_write(&self) -> (r: bool)
        ensures
            r == self.spec_is_write(),
    {
        self.p_flags & PF_W != 0
    }

    /// Whether this segment is executable once loaded.
    pub fn is_executable(&self) -> (r: bool)
        ensures
            r == self.spec_is_executable(),
    {
        self.p_flags & PF_X != 0
    }

    /// The byte range the segment occupies within the on-disk file.
    pub open spec fn spec_file_range(self) -> MRange {
        MRange { min: self.p_offset, max: sat_add(self.p_offset, self.p_filesz) }
    }

    /// The byte range the segment occupies in the loaded address space.
    pub open spec fn spec_vm_range(self) -> MRange {
        MRange { min: self.p_vaddr, max: sat_add(self.p_vaddr, self.p_memsz) }
    }

    /// This segment's file offset range.
    pub fn file_range(&self) -> (r: MRange)
        ensures
            r == self.spec_file_range(),
    {
        MRange::new(self.p_offset, self.p_offset.saturating_add(self.p_filesz))
    }

    /// This segment's virtual memory range.
    pub fn vm_range(&self) -> (r: MRange)
        ensures
            r == self.spec_vm_range(),
    {
        MRange::new(self.p_vaddr, self.p_vaddr.saturating_add(self.p_memsz))
    }
}

/// A section descriptor: the declared fields this library reads.
#[derive(Debug, Copy, Clone, PartialEq, Eq, Structural)]
pub struct SectionHeader {
    /// The byte offset of the section's name within the string table.
    pub sh_name: usize,
    /// The structural type code.
    pub sh_type: u32,
    /// The allocated/writable/executable flag bits.
    pub sh_flags: u64,
    /// The declared virtual address of the section once loaded.
    pub sh_addr: u64,
    /// The declared offset of the section's bytes within the file.
    pub sh_offset: u64,
    /// The declared size of the section in bytes.
    pub sh_size: u64,
}

impl SectionHeader {
    pub open spec fn spec_is_alloc(self) -> bool {
        (self.sh_flags as u32) & SHF_ALLOC == SHF_ALLOC
    }

    pub open spec fn spec_is_writable(self) -> bool {
        self.spec_is_alloc() && (self.sh_flags as u32) & SHF_WRITE == SHF_WRITE
    }

    pub open spec fn spec_is_executable(self) -> bool {
        self.spec_is_alloc() && (self.sh_flags as u32) & SHF_EXECINSTR == SHF_EXECINSTR
    }

    /// Whether this section occupies memory during execution.
    pub fn is_alloc(&self) -> (r: bool)
        ensures
            r == self.spec_is_alloc(),
    {
        (self.sh_flags as u32) & SHF_ALLOC == SHF_ALLOC
    }

    /// Whether this section is writable while mapped.
    pub fn is_writable(&self) -> (r: bool)
        ensures
            r == self.spec_is_writable(),
    {
        self.is_alloc() && (self.sh_flags as u32) & SHF_WRITE == SHF_WRITE
    }

    /// Whether this section holds executable instructions.
    pub fn is_executable(&self) -> (r: bool)
        ensures
            r == self.spec_is_executable(),
    {
        self.is_alloc() && (self.sh_flags as u32) & SHF_EXECINSTR == SHF_EXECINSTR
    }

    /// The byte range the section's stored bytes occupy within the file,
    /// disregarding whether it has file storage at all.
    pub open spec fn spec_file_mrange(self) -> MRange {
        MRange { min: self.sh_offset, max: sat_add(self.sh_offset, self.sh_size) }
    }

    /// The byte range the section occupies in the loaded address space.
    pub open spec fn spec_vm_range(self) -> MRange {
        MRange { min: self.sh_addr, max: sat_add(self.sh_addr, self.sh_size) }
    }

    /// Whether the section occupies space in the file: a no-bits section is
    /// zero-filled at load time and has no on-disk bytes.
    pub open spec fn spec_has_file_storage(self) -> bool {
        self.sh_type != SHT_NOBITS
    }

    /// This section's file offset range, if the section occupies space in
    /// the file.
    pub fn file_range(&self) -> (r: Option<MRange>)
        ensures
            self.spec_has_file_storage() ==> r == Some(self.spec_file_mrange()),
            !self.spec_has_file_storage() ==> r is None,
    {
        if self.sh_type == SHT_NOBITS {
            None
        } else {
            Some(MRange::new(self.sh_offset, self.sh_offset.saturating_add(self.sh_size)))
        }
    }

    /// This section's virtual memory range.
    pub fn vm_range(&self) -> (r: MRange)
        ensures
            r == self.spec_vm_range(),
    {
        MRange::new(self.sh_addr, self.sh_addr.saturating_add(self.sh_size))
    }
}

/// The structural tables of one parsed object of the supported kind.
#[derive(Debug)]
pub struct Elf {
    /// The load-segment descriptors, in declared header order.
    pub program_headers: Vec<ProgramHeader>,
    /// The section descriptors, in declared header order.
    pub section_headers: Vec<SectionHeader>,
    /// The raw bytes of the section-name string table.
    pub shdr_strtab: Vec<u8>,
}

/// A parsed object file, as handed over by the upstream parser.
#[derive(Debug)]
pub enum Object {
    /// An object of the supported structural kind.
    Elf(Elf),
    /// Any container format this library does not classify.
    Unsupported,
}

} // verus!
