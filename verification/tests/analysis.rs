use metagoblin::Analysis;
use metagoblin::Elf;
use metagoblin::MRange;
use metagoblin::Object;
use metagoblin::ProgramHeader;
use metagoblin::SectionHeader;
use metagoblin::Tag;
use metagoblin::object;

fn empty_elf() -> Elf {
    Elf { program_headers: Vec::new(), section_headers: Vec::new(), shdr_strtab: Vec::new() }
}

#[test]
fn unsupported_object_yields_empty_analysis() {
    let analysis = Analysis::new(&Object::Unsupported);
    assert!(analysis.franges.is_empty());
    assert!(analysis.memranges.is_empty());
}

#[test]
fn supported_object_with_no_entries_yields_empty_analysis() {
    let analysis = Analysis::new(&Object::Elf(empty_elf()));
    assert!(analysis.franges.is_empty());
    assert!(analysis.memranges.is_empty());
}

#[test]
fn segment_range_endpoints_saturate() {
    let mut elf = empty_elf();
    elf.program_headers.push(ProgramHeader {
        p_type: object::PT_LOAD,
        p_flags: object::PF_R,
        p_offset: u64::MAX - 0x10,
        p_vaddr: u64::MAX - 0x10,
        p_filesz: 0x100,
        p_memsz: 0x100,
    });
    let analysis = Analysis::new(&Object::Elf(elf));
    assert_eq!(analysis.franges[0].0, MRange::from((u64::MAX - 0x10, u64::MAX)));
    assert_eq!(analysis.memranges[0].0, MRange::from((u64::MAX - 0x10, u64::MAX)));
}

#[test]
fn loadable_segment_scenario() {
    let mut elf = empty_elf();
    elf.program_headers.push(ProgramHeader {
        p_type: object::PT_LOAD,
        p_flags: object::PF_R | object::PF_X,
        p_offset: 0x1000,
        p_vaddr: 0x400000,
        p_filesz: 0x1000,
        p_memsz: 0x1000,
    });
    let analysis = Analysis::new(&Object::Elf(elf));
    assert_eq!(analysis.franges.len(), 1);
    assert_eq!(analysis.memranges.len(), 1);
    let (frange, fdata) = &analysis.franges[0];
    let (mrange, mdata) = &analysis.memranges[0];
    assert_eq!(*frange, MRange::from((0x1000u64, 0x2000u64)));
    assert_eq!(*mrange, MRange::from((0x400000u64, 0x401000u64)));
    assert_eq!(fdata.tag, Tag::Code);
    assert_eq!(mdata.tag, Tag::Code);
    assert_eq!(fdata.name(), Some("PT_LOAD"));
    let segment = mdata.memory.as_ref().expect("loadable segment carries memory");
    assert_eq!(segment.permissions.display(), "R+X");
    let segment = fdata.memory.as_ref().expect("loadable segment carries memory");
    assert_eq!(segment.permissions.display(), "R+X");
}

#[test]
fn non_loadable_segment_has_no_memory() {
    let mut elf = empty_elf();
    elf.program_headers.push(ProgramHeader {
        p_type: object::PT_DYNAMIC,
        p_flags: object::PF_R,
        p_offset: 0x3000,
        p_vaddr: 0x403000,
        p_filesz: 0x200,
        p_memsz: 0x200,
    });
    let analysis = Analysis::new(&Object::Elf(elf));
    assert_eq!(analysis.memranges.len(), 1);
    let (_, mdata) = &analysis.memranges[0];
    assert_eq!(mdata.tag, Tag::Meta);
    assert_eq!(mdata.name(), Some("PT_DYNAMIC"));
    assert!(mdata.memory.is_none());
}

#[test]
fn zero_length_segment_is_still_indexed() {
    let mut elf = empty_elf();
    elf.program_headers.push(ProgramHeader {
        p_type: object::PT_PHDR,
        p_flags: object::PF_R,
        p_offset: 0x40,
        p_vaddr: 0x400040,
        p_filesz: 0,
        p_memsz: 0,
    });
    let analysis = Analysis::new(&Object::Elf(elf));
    assert_eq!(analysis.franges.len(), 1);
    assert_eq!(analysis.memranges.len(), 1);
    assert_eq!(analysis.franges[0].0, MRange::from((0x40u64, 0x40u64)));
    assert_eq!(analysis.franges[0].0.len(), 0);
}

#[test]
fn nobits_section_scenario() {
    let mut elf = empty_elf();
    elf.section_headers.push(SectionHeader {
        sh_name: 0,
        sh_type: object::SHT_NOBITS,
        sh_flags: (object::SHF_ALLOC | object::SHF_WRITE) as u64,
        sh_addr: 0x404000,
        sh_offset: 0x3FA0,
        sh_size: 0x100,
    });
    let analysis = Analysis::new(&Object::Elf(elf));
    assert!(analysis.franges.is_empty());
    assert_eq!(analysis.memranges.len(), 1);
    let (mrange, mdata) = &analysis.memranges[0];
    assert_eq!(*mrange, MRange::from((0x404000u64, 0x404100u64)));
    assert_eq!(mdata.tag, Tag::Zero);
    let segment = mdata.memory.as_ref().expect("zero-fill section carries memory");
    assert_eq!(segment.permissions.display(), "RW");
}

#[test]
fn zero_size_section_is_skipped() {
    let mut elf = empty_elf();
    elf.section_headers.push(SectionHeader {
        sh_name: 0,
        sh_type: object::SHT_PROGBITS,
        sh_flags: object::SHF_ALLOC as u64,
        sh_addr: 0x401000,
        sh_offset: 0x1000,
        sh_size: 0,
    });
    let analysis = Analysis::new(&Object::Elf(elf));
    assert!(analysis.franges.is_empty());
    assert!(analysis.memranges.is_empty());
}

#[test]
fn unrecognized_section_type_scenario() {
    let mut elf = empty_elf();
    elf.section_headers.push(SectionHeader {
        sh_name: 0,
        sh_type: 0xFFFF_0000,
        sh_flags: 0,
        sh_addr: 0x405000,
        sh_offset: 0x5000,
        sh_size: 0x40,
    });
    let analysis = Analysis::new(&Object::Elf(elf));
    assert_eq!(analysis.memranges.len(), 1);
    let (_, mdata) = &analysis.memranges[0];
    assert_eq!(mdata.tag, Tag::Unknown);
    assert!(mdata.memory.is_none());
    // The unrecognized section still occupies file storage.
    assert_eq!(analysis.franges.len(), 1);
    assert_eq!(analysis.franges[0].0, MRange::from((0x5000u64, 0x5040u64)));
}

#[test]
fn progbits_section_appears_in_both_collections() {
    let mut elf = empty_elf();
    elf.shdr_strtab = b"\0.text\0".to_vec();
    elf.section_headers.push(SectionHeader {
        sh_name: 1,
        sh_type: object::SHT_PROGBITS,
        sh_flags: (object::SHF_ALLOC | object::SHF_EXECINSTR) as u64,
        sh_addr: 0x401000,
        sh_offset: 0x1000,
        sh_size: 0x800,
    });
    let analysis = Analysis::new(&Object::Elf(elf));
    assert_eq!(analysis.franges.len(), 1);
    assert_eq!(analysis.memranges.len(), 1);
    let (frange, fdata) = &analysis.franges[0];
    let (mrange, mdata) = &analysis.memranges[0];
    assert_eq!(*frange, MRange::from((0x1000u64, 0x1800u64)));
    assert_eq!(*mrange, MRange::from((0x401000u64, 0x401800u64)));
    assert_eq!(fdata.tag, Tag::Code);
    assert_eq!(mdata.tag, Tag::Code);
    assert_eq!(fdata.name(), Some(".text"));
    assert_eq!(mdata.name(), Some(".text"));
    let segment = mdata.memory.as_ref().expect("program bits carry memory");
    assert!(segment.permissions.read());
    assert!(!segment.permissions.write());
    assert!(segment.permissions.execute());
    assert_eq!(segment.permissions.display(), "R+X");
}

#[test]
fn section_name_lookup_tolerates_bad_offsets() {
    let mut elf = empty_elf();
    elf.shdr_strtab = b"\0.data\0".to_vec();
    elf.section_headers.push(SectionHeader {
        sh_name: 0x1234,
        sh_type: object::SHT_PROGBITS,
        sh_flags: 0,
        sh_addr: 0,
        sh_offset: 0x2000,
        sh_size: 0x10,
    });
    let analysis = Analysis::new(&Object::Elf(elf));
    assert_eq!(analysis.memranges.len(), 1);
    assert_eq!(analysis.memranges[0].1.name(), None);
}

#[test]
fn segments_precede_sections_in_declared_order() {
    let mut elf = empty_elf();
    elf.shdr_strtab = b"\0.text\0.bss\0".to_vec();
    elf.program_headers.push(ProgramHeader {
        p_type: object::PT_LOAD,
        p_flags: object::PF_R,
        p_offset: 0,
        p_vaddr: 0x400000,
        p_filesz: 0x2000,
        p_memsz: 0x2000,
    });
    elf.section_headers.push(SectionHeader {
        sh_name: 1,
        sh_type: object::SHT_PROGBITS,
        sh_flags: (object::SHF_ALLOC | object::SHF_EXECINSTR) as u64,
        sh_addr: 0x401000,
        sh_offset: 0x1000,
        sh_size: 0x100,
    });
    elf.section_headers.push(SectionHeader {
        sh_name: 7,
        sh_type: object::SHT_NOBITS,
        sh_flags: (object::SHF_ALLOC | object::SHF_WRITE) as u64,
        sh_addr: 0x404000,
        sh_offset: 0x2000,
        sh_size: 0x200,
    });
    let analysis = Analysis::new(&Object::Elf(elf));
    // File ranges: the segment, then the one section with file storage.
    assert_eq!(analysis.franges.len(), 2);
    assert_eq!(analysis.franges[0].1.name(), Some("PT_LOAD"));
    assert_eq!(analysis.franges[1].1.name(), Some(".text"));
    // Memory ranges: the segment, then both sections in header order.
    assert_eq!(analysis.memranges.len(), 3);
    assert_eq!(analysis.memranges[0].1.name(), Some("PT_LOAD"));
    assert_eq!(analysis.memranges[1].1.name(), Some(".text"));
    assert_eq!(analysis.memranges[2].1.name(), Some(".bss"));
    assert_eq!(analysis.memranges[2].1.tag, Tag::Zero);
}

#[test]
fn identical_ranges_are_both_retained() {
    let mut elf = empty_elf();
    elf.program_headers.push(ProgramHeader {
        p_type: object::PT_LOAD,
        p_flags: object::PF_R,
        p_offset: 0x1000,
        p_vaddr: 0x401000,
        p_filesz: 0x100,
        p_memsz: 0x100,
    });
    elf.section_headers.push(SectionHeader {
        sh_name: 0,
        sh_type: object::SHT_PROGBITS,
        sh_flags: object::SHF_ALLOC as u64,
        sh_addr: 0x401000,
        sh_offset: 0x1000,
        sh_size: 0x100,
    });
    let analysis = Analysis::new(&Object::Elf(elf));
    assert_eq!(analysis.franges.len(), 2);
    assert_eq!(analysis.franges[0].0, analysis.franges[1].0);
    assert_eq!(analysis.memranges.len(), 2);
    assert_eq!(analysis.memranges[0].0, analysis.memranges[1].0);
}
