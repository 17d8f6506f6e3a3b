//! Semantic tags, permissions, and the per-entry classification rules.

use crate::object::PF_R;
use crate::object::PF_W;
use crate::object::PF_X;
use crate::object::PT_DYNAMIC;
use crate::object::PT_INTERP;
use crate::object::PT_LOAD;
use crate::object::PT_NOTE;
use crate::object::PT_PHDR;
use crate::object::ProgramHeader;
use crate::object::SHT_DYNAMIC;
use crate::object::SHT_DYNSYM;
use crate::object::SHT_FINI_ARRAY;
use crate::object::SHT_INIT_ARRAY;
use crate::object::SHT_NOBITS;
use crate::object::SHT_NOTE;
use crate::object::SHT_PROGBITS;
use crate::object::SHT_REL;
use crate::object::SHT_RELA;
use crate::object::SHT_STRTAB;
use crate::object::SHT_SYMTAB;
use crate::object::SectionHeader;
use vstd::prelude::*;
use vstd::string::StringExecFns;

verus! {

/// Symbolically tags an address range in a binary.
#[derive(Debug, Copy, Clone, PartialEq, Eq, Structural)]
pub enum Tag {
    /// A structural or bookkeeping region, such as the program-header table
    /// itself or the dynamic-linking table.
    Meta,
    /// Loaded, potentially executable content.
    Code,
    /// Reserved: no current classification rule emits it.
    Data,
    /// Relocation entries.
    Relocation,
    /// A string table.
    StringTable,
    /// A symbol table.
    SymbolTable,
    /// Declared but not stored: zero-filled at load time.
    Zero,
    /// Content interpreted as printable text, such as an interpreter path.
    ASCII,
    /// An unrecognized type code.
    Unknown,
}

/// Read, write and execute rights of a memory-resident region.
#[derive(Debug, Default, Copy, Clone)]
pub struct Permissions {
    raw_perms: [bool; 3],
}

impl Permissions {
    pub closed spec fn spec_read(self) -> bool {
        self.raw_perms[0]
    }

    pub closed spec fn spec_write(self) -> bool {
        self.raw_perms[1]
    }

    pub closed spec fn spec_execute(self) -> bool {
        self.raw_perms[2]
    }

    pub fn new(read: bool, write: bool, execute: bool) -> (r: Self)
        ensures
            r.spec_read() == read,
            r.spec_write() == write,
            r.spec_execute() == execute,
    {
        Permissions { raw_perms: [read, write, execute] }
    }

    /// Whether the region may be read.
    pub fn read(&self) -> (r: bool)
        ensures
            r == self.spec_read(),
    {
        self.raw_perms[0]
    }

    /// Whether the region may be written.
    pub fn write(&self) -> (r: bool)
        ensures
            r == self.spec_write(),
    {
        self.raw_perms[1]
    }

    /// Whether the region may be executed.
    pub fn execute(&self) -> (r: bool)
        ensures
            r == self.spec_execute(),
    {
        self.raw_perms[2]
    }

    /// The compact textual rendering of a permission set: `"R"` if readable
    /// and `"W"` if writable, with `"+X"` appended if executable. Each flag
    /// contributes independently; no flag suppresses another.
    pub open spec fn spec_display(self) -> Seq<char> {
        (if self.spec_read() {
            seq!['R']
        } else {
            Seq::empty()
        }) + (if self.spec_write() {
            seq!['W']
        } else {
            Seq::empty()
        }) + (if self.spec_execute() {
            seq!['+', 'X']
        } else {
            Seq::empty()
        })
    }

    /// Render this permission set for humans, flag by flag.
    pub fn display(&self) -> (r: String)
        ensures
            r@ == self.spec_display(),
    {
        proof {
            reveal_strlit("R");
            reveal_strlit("W");
            reveal_strlit("+X");
        }
        let mut s = String::new();
        if self.read() {
            s.append("R");
        }
        if self.write() {
            s.append("W");
        }
        if self.execute() {
            s.append("+X");
        }
        proof {
            assert(s@ =~= self.spec_display());
        }
        s
    }

    /// Derive a segment's permissions from its read/write/execute flag bits.
    pub fn from_program_header(phdr: &ProgramHeader) -> (r: Self)
        ensures
            r.spec_read() == phdr.spec_is_read(),
            r.spec_write() == phdr.spec_is_write(),
            r.spec_execute() == phdr.spec_is_executable(),
    {
        Permissions::new(phdr.is_read(), phdr.is_write(), phdr.is_executable())
    }

    /// Derive a section's permissions from its allocated/writable/executable
    /// flag bits.
    pub fn from_section_header(shdr: &SectionHeader) -> (r: Self)
        ensures
            r.spec_read() == shdr.spec_is_alloc(),
            r.spec_write() == shdr.spec_is_writable(),
            r.spec_execute() == shdr.spec_is_executable(),
    {
        Permissions::new(shdr.is_alloc(), shdr.is_writable(), shdr.is_executable())
    }
}

/// A memory-resident region descriptor: its permissions, and an optional
/// alignment reserved for future structural data (never populated by the
/// current classification rules).
#[derive(Debug, Default, Copy, Clone)]
pub struct Segment {
    pub permissions: Permissions,
    pub alignment: Option<usize>,
}

impl Segment {
    pub fn new(permissions: Permissions) -> (r: Self)
        ensures
            r.permissions == permissions,
            r.alignment is None,
    {
        Segment { permissions, alignment: None }
    }
}

/// The canonical string label of a load-segment type code, as the upstream
/// parser renders it. The label is a function of the code alone.
pub uninterp spec fn pt_label_of(p_type: u32) -> Seq<char>;

/// Relies on `goblin::elf::program_header::pt_to_str`: the canonical label of
/// a program-header type code, computed from the code alone by a static
/// lookup.
#[verifier::external_body]
fn pt_label(p_type: u32) -> (r: String)
    ensures
        r@ == pt_label_of(p_type),
{
    goblin::elf::program_header::pt_to_str(p_type).to_owned()
}

/// The semantic tag a load-segment type code classifies to.
pub open spec fn segment_tag(p_type: u32) -> Tag {
    if p_type == PT_PHDR {
        Tag::Meta
    } else if p_type == PT_INTERP {
        Tag::ASCII
    } else if p_type == PT_NOTE {
        Tag::ASCII
    } else if p_type == PT_DYNAMIC {
        Tag::Meta
    } else if p_type == PT_LOAD {
        Tag::Code
    } else {
        Tag::Unknown
    }
}

/// The semantic tag a section type code classifies to.
pub open spec fn section_tag(sh_type: u32) -> Tag {
    if sh_type == SHT_NOTE {
        Tag::ASCII
    } else if sh_type == SHT_REL || sh_type == SHT_RELA {
        Tag::Relocation
    } else if sh_type == SHT_DYNAMIC {
        Tag::Meta
    } else if sh_type == SHT_SYMTAB || sh_type == SHT_DYNSYM {
        Tag::SymbolTable
    } else if sh_type == SHT_STRTAB {
        Tag::StringTable
    } else if sh_type == SHT_NOBITS {
        Tag::Zero
    } else if sh_type == SHT_PROGBITS || sh_type == SHT_FINI_ARRAY || sh_type == SHT_INIT_ARRAY {
        Tag::Code
    } else {
        Tag::Unknown
    }
}

/// Whether a section type code implies a memory-resident region, so that the
/// classifier derives permissions for it.
pub open spec fn section_has_memory(sh_type: u32) -> bool {
    sh_type == SHT_NOBITS || sh_type == SHT_PROGBITS || sh_type == SHT_FINI_ARRAY || sh_type
        == SHT_INIT_ARRAY
}

/// The permission set derived from a load segment's flag bits.
pub open spec fn phdr_permissions(p: Permissions, h: ProgramHeader) -> bool {
    &&& p.spec_read() == h.spec_is_read()
    &&& p.spec_write() == h.spec_is_write()
    &&& p.spec_execute() == h.spec_is_executable()
}

/// The permission set derived from a section's flag bits.
pub open spec fn shdr_permissions(p: Permissions, h: SectionHeader) -> bool {
    &&& p.spec_read() == h.spec_is_alloc()
    &&& p.spec_write() == h.spec_is_writable()
    &&& p.spec_execute() == h.spec_is_executable()
}

/// What the classifier emits for a load-segment entry: its tag, the canonical
/// label of its type code as its name, and a memory descriptor exactly when
/// the entry is of the loadable kind.
pub open spec fn phdr_metadata(h: ProgramHeader, md: MetaData) -> bool {
    &&& md.tag == segment_tag(h.p_type)
    &&& md.name.deep_view() == Some(pt_label_of(h.p_type))
    &&& (md.memory is Some <==> h.p_type == PT_LOAD)
    &&& (md.memory matches Some(seg) ==> seg.alignment is None && phdr_permissions(
        seg.permissions,
        h,
    ))
}

/// What the classifier emits for a section entry: its tag, no name (the
/// builder resolves names afterward), and a memory descriptor exactly when
/// the type code implies a memory-resident region.
pub open spec fn shdr_metadata(h: SectionHeader, md: MetaData) -> bool {
    &&& md.tag == section_tag(h.sh_type)
    &&& md.name is None
    &&& (md.memory is Some <==> section_has_memory(h.sh_type))
    &&& (md.memory matches Some(seg) ==> seg.alignment is None && shdr_permissions(
        seg.permissions,
        h,
    ))
}

/// The record tied to one classified address range: its semantic tag, its
/// declared name when known, and a memory descriptor when the region
/// occupies real memory.
#[derive(Debug)]
pub struct MetaData {
    pub tag: Tag,
    pub name: Option<String>,
    pub memory: Option<Segment>,
}

impl Clone for MetaData {
    /// A clone keeps the tag, the name's characters and the memory
    /// descriptor.
    fn clone(&self) -> (r: Self)
        ensures
            r.tag == self.tag,
            r.name.deep_view() == self.name.deep_view(),
            r.memory == self.memory,
    {
        let name: Option<String> = match &self.name {
            Some(n) => Some(n.clone()),
            None => None,
        };
        MetaData { tag: self.tag, name, memory: self.memory }
    }
}

impl MetaData {
    /// The entry's declared name, when one is known.
    pub fn name(&self) -> (r: Option<&str>)
        ensures
            self.name matches Some(n) ==> (r matches Some(s) && s@ == n@),
            self.name is None ==> r is None,
    {
        if let Some(ref name) = self.name {
            Some(name.as_str())
        } else {
            None
        }
    }

    /// Classify one load-segment entry. Pure and total: every type code maps
    /// to a tag, falling back to `Unknown`, and only the loadable kind gets a
    /// memory descriptor.
    pub fn from_program_header(phdr: &ProgramHeader) -> (r: Self)
        ensures
            phdr_metadata(*phdr, r),
    {
        let mut memory: Option<Segment> = None;
        let name = Some(pt_label(phdr.p_type));
        let tag = if phdr.p_type == PT_PHDR {
            Tag::Meta
        } else if phdr.p_type == PT_INTERP {
            Tag::ASCII
        } else if phdr.p_type == PT_NOTE {
            Tag::ASCII
        } else if phdr.p_type == PT_DYNAMIC {
            Tag::Meta
        } else if phdr.p_type == PT_LOAD {
            let permissions = Permissions::from_program_header(phdr);
            let segment = Segment::new(permissions);
            memory = Some(segment);
            Tag::Code
        } else {
            Tag::Unknown
        };
        MetaData { name, tag, memory }
    }

    /// Classify one section entry. Pure and total: every type code maps to a
    /// tag, falling back to `Unknown`; the no-bits and program-bits classes
    /// get a memory descriptor. The name is left unset: the builder fills it
    /// in from the string table.
    pub fn from_section_header(shdr: &SectionHeader) -> (r: Self)
        ensures
            shdr_metadata(*shdr, r),
    {
        let mut memory: Option<Segment> = None;
        let name: Option<String> = None;
        let tag = if shdr.sh_type == SHT_NOTE {
            Tag::ASCII
        } else if shdr.sh_type == SHT_REL || shdr.sh_type == SHT_RELA {
            Tag::Relocation
        } else if shdr.sh_type == SHT_DYNAMIC {
            Tag::Meta
        } else if shdr.sh_type == SHT_SYMTAB || shdr.sh_type == SHT_DYNSYM {
            Tag::SymbolTable
        } else if shdr.sh_type == SHT_STRTAB {
            Tag::StringTable
        } else if shdr.sh_type == SHT_NOBITS {
            let permissions = Permissions::from_section_header(shdr);
            let segment = Segment::new(permissions);
            memory = Some(segment);
            Tag::Zero
        } else if shdr.sh_type == SHT_PROGBITS || shdr.sh_type == SHT_FINI_ARRAY || shdr.sh_type
            == SHT_INIT_ARRAY {
            let permissions = Permissions::from_section_header(shdr);
            let segment = Segment::new(permissions);
            memory = Some(segment);
            Tag::Code
        } else {
            Tag::Unknown
        };
        MetaData { name, tag, memory }
    }
}

} // verus!
