//! The range index builder: walks a parsed object's structural tables,
//! classifies every entry, and assembles the two range-indexed collections.

use crate::metadata::MetaData;
use crate::metadata::Tag;
use crate::metadata::phdr_metadata;
use crate::metadata::section_has_memory;
use crate::metadata::section_tag;
use crate::metadata::shdr_permissions;
use crate::object::Elf;
use crate::object::Object;
use crate::object::PT_LOAD;
use crate::object::SHT_FINI_ARRAY;
use crate::object::SHT_INIT_ARRAY;
use crate::object::SHT_NOBITS;
use crate::object::SHT_PROGBITS;
use crate::object::SectionHeader;
use crate::range::MRange;
use vstd::prelude::*;

verus! {

/// The string-table entry found at a byte offset of a name table, when the
/// offset is in bounds and the bytes there form a well-formed entry. The
/// entry is a function of the table bytes and the offset alone.
pub uninterp spec fn strtab_entry(table: Seq<u8>, offset: int) -> Option<Seq<char>>;

/// Relies on `goblin::strtab::Strtab::new_preparsed` and
/// `goblin::strtab::Strtab::get_at`: the nul-delimited entry at a byte
/// offset of a string table, computed from the table bytes and the offset
/// alone. An out-of-bounds offset or a malformed table yields `None` rather
/// than a failure.
#[verifier::external_body]
fn strtab_lookup(table: &Vec<u8>, offset: usize) -> (r: Option<String>)
    ensures
        r.deep_view() == strtab_entry(table@, offset as int),
{
    match goblin::strtab::Strtab::new_preparsed(table.as_slice(), 0x0) {
        Ok(tab) => tab.get_at(offset).map(str::to_owned),
        Err(_) => None,
    }
}

/// The complete record the builder keeps for a section entry: the
/// classifier's output with the name resolved from the string table.
pub open spec fn shdr_record(h: SectionHeader, table: Seq<u8>, md: MetaData) -> bool {
    &&& md.tag == section_tag(h.sh_type)
    &&& md.name.deep_view() == strtab_entry(table, h.sh_name as int)
    &&& (md.memory is Some <==> section_has_memory(h.sh_type))
    &&& (md.memory matches Some(seg) ==> seg.alignment is None && shdr_permissions(
        seg.permissions,
        h,
    ))
}

/// Whether a section contributes a record to the virtual-address
/// collection: zero-size sections are filtered out entirely.
pub open spec fn section_keeps_memory(h: SectionHeader) -> bool {
    h.sh_size != 0
}

/// Whether a section contributes a record to the file-offset collection:
/// besides carrying a nonzero size it must occupy file storage.
pub open spec fn section_keeps_file(h: SectionHeader) -> bool {
    h.sh_size != 0 && h.spec_has_file_storage()
}

/// The positions of the sections that `keep` retains, in declared order.
pub open spec fn kept_indices(
    shdrs: Seq<SectionHeader>,
    keep: spec_fn(SectionHeader) -> bool,
) -> Seq<int>
    decreases shdrs.len(),
{
    if shdrs.len() == 0 {
        Seq::empty()
    } else {
        let prefix = kept_indices(shdrs.drop_last(), keep);
        if keep(shdrs.last()) {
            prefix.push(shdrs.len() - 1)
        } else {
            prefix
        }
    }
}

/// The sections that appear in the virtual-address collection.
pub open spec fn mem_section_indices(shdrs: Seq<SectionHeader>) -> Seq<int> {
    kept_indices(shdrs, |h: SectionHeader| section_keeps_memory(h))
}

/// The sections that appear in the file-offset collection.
pub open spec fn file_section_indices(shdrs: Seq<SectionHeader>) -> Seq<int> {
    kept_indices(shdrs, |h: SectionHeader| section_keeps_file(h))
}

/// Extending the walked prefix by one section either appends that section's
/// position to the kept indices or leaves them unchanged.
proof fn lemma_kept_indices_take_step(
    shdrs: Seq<SectionHeader>,
    keep: spec_fn(SectionHeader) -> bool,
    i: int,
)
    requires
        0 <= i < shdrs.len(),
    ensures
        kept_indices(shdrs.take(i + 1), keep) == if keep(shdrs[i]) {
            kept_indices(shdrs.take(i), keep).push(i)
        } else {
            kept_indices(shdrs.take(i), keep)
        },
{
    let t = shdrs.take(i + 1);
    assert(t.drop_last() =~= shdrs.take(i));
    assert(t.last() == shdrs[i]);
}

/// The kept indices are positions of the section table, they point at
/// sections the filter retains, they are strictly increasing (so no
/// position appears twice), and every retained section's position is among
/// them.
pub proof fn lemma_kept_indices_facts(
    shdrs: Seq<SectionHeader>,
    keep: spec_fn(SectionHeader) -> bool,
)
    ensures
        forall|j: int| #![trigger kept_indices(shdrs, keep)[j]]
            0 <= j < kept_indices(shdrs, keep).len() ==> 0 <= kept_indices(shdrs, keep)[j]
                < shdrs.len() && keep(shdrs[kept_indices(shdrs, keep)[j]]),
        forall|j1: int, j2: int|
            0 <= j1 < j2 < kept_indices(shdrs, keep).len() ==> #[trigger] kept_indices(
                shdrs,
                keep,
            )[j1] < #[trigger] kept_indices(shdrs, keep)[j2],
        forall|k: int|
            0 <= k < shdrs.len() && keep(#[trigger] shdrs[k]) ==> kept_indices(
                shdrs,
                keep,
            ).contains(k),
    decreases shdrs.len(),
{
    if shdrs.len() > 0 {
        let prev = shdrs.drop_last();
        let v_prev = kept_indices(prev, keep);
        let v = kept_indices(shdrs, keep);
        lemma_kept_indices_facts(prev, keep);
        assert forall|k: int| 0 <= k < shdrs.len() && keep(#[trigger] shdrs[k]) implies v.contains(
            k,
        ) by {
            if k < shdrs.len() - 1 {
                assert(prev[k] == shdrs[k]);
                assert(v_prev.contains(k));
                let j = choose|j: int| 0 <= j < v_prev.len() && v_prev[j] == k;
                assert(v[j] == k);
            } else {
                assert(v[v.len() - 1] == k);
            }
        }
    }
}

/// The facts of `lemma_kept_indices_facts`, spelled for the sections kept in
/// the virtual-address collection.
pub proof fn lemma_mem_section_indices_facts(shdrs: Seq<SectionHeader>)
    ensures
        forall|j: int| #![trigger mem_section_indices(shdrs)[j]]
            0 <= j < mem_section_indices(shdrs).len() ==> 0 <= mem_section_indices(shdrs)[j]
                < shdrs.len() && section_keeps_memory(shdrs[mem_section_indices(shdrs)[j]]),
        forall|j1: int, j2: int|
            0 <= j1 < j2 < mem_section_indices(shdrs).len() ==> #[trigger] mem_section_indices(
                shdrs,
            )[j1] < #[trigger] mem_section_indices(shdrs)[j2],
        forall|k: int|
            0 <= k < shdrs.len() && section_keeps_memory(#[trigger] shdrs[k])
                ==> mem_section_indices(shdrs).contains(k),
{
    lemma_kept_indices_facts(shdrs, |h: SectionHeader| section_keeps_memory(h));
}

/// The facts of `lemma_kept_indices_facts`, spelled for the sections kept in
/// the file-offset collection.
pub proof fn lemma_file_section_indices_facts(shdrs: Seq<SectionHeader>)
    ensures
        forall|j: int| #![trigger file_section_indices(shdrs)[j]]
            0 <= j < file_section_indices(shdrs).len() ==> 0 <= file_section_indices(shdrs)[j]
                < shdrs.len() && section_keeps_file(shdrs[file_section_indices(shdrs)[j]]),
        forall|j1: int, j2: int|
            0 <= j1 < j2 < file_section_indices(shdrs).len() ==> #[trigger] file_section_indices(
                shdrs,
            )[j1] < #[trigger] file_section_indices(shdrs)[j2],
        forall|k: int|
            0 <= k < shdrs.len() && section_keeps_file(#[trigger] shdrs[k])
                ==> file_section_indices(shdrs).contains(k),
{
    lemma_kept_indices_facts(shdrs, |h: SectionHeader| section_keeps_file(h));
}

/// The aggregate result: the two range-indexed collections, one keyed by
/// file-offset ranges, one keyed by virtual-address ranges.
///
/// Both collections are plain lists kept in insertion order — load segments
/// first, then sections, each in declared header order. Ranges may overlap
/// and may repeat; nothing is deduplicated. Overlap queries walk a list,
/// probing each entry with [`MRange::overlaps`].
#[derive(Debug)]
pub struct Analysis {
    /// Records keyed by the byte range each entry occupies in the file.
    pub franges: Vec<(MRange, MetaData)>,
    /// Records keyed by the byte range each entry occupies in memory.
    pub memranges: Vec<(MRange, MetaData)>,
}

/// What the builder produces for an object of the supported kind: first one
/// record per load segment, in header order, in both collections; then one
/// record per retained section, in header order — every nonzero-size section
/// in the virtual-address collection, and of those only the ones with file
/// storage in the file-offset collection.
pub open spec fn records_match(
    elf: Elf,
    franges: Seq<(MRange, MetaData)>,
    memranges: Seq<(MRange, MetaData)>,
) -> bool {
    let ph = elf.program_headers@;
    let sh = elf.section_headers@;
    let fsec = file_section_indices(sh);
    let msec = mem_section_indices(sh);
    &&& franges.len() == ph.len() + fsec.len()
    &&& memranges.len() == ph.len() + msec.len()
    &&& (forall|i: int|
        0 <= i < ph.len() ==> (#[trigger] franges[i]).0 == ph[i].spec_file_range()
            && phdr_metadata(ph[i], franges[i].1))
    &&& (forall|i: int|
        0 <= i < ph.len() ==> (#[trigger] memranges[i]).0 == ph[i].spec_vm_range()
            && phdr_metadata(ph[i], memranges[i].1))
    &&& (forall|i: int|
        ph.len() <= i < franges.len() ==> (#[trigger] franges[i]).0
            == sh[fsec[i - ph.len()]].spec_file_mrange() && shdr_record(
            sh[fsec[i - ph.len()]],
            elf.shdr_strtab@,
            franges[i].1,
        ))
    &&& (forall|i: int|
        ph.len() <= i < memranges.len() ==> (#[trigger] memranges[i]).0
            == sh[msec[i - ph.len()]].spec_vm_range() && shdr_record(
            sh[msec[i - ph.len()]],
            elf.shdr_strtab@,
            memranges[i].1,
        ))
}

impl Analysis {
    /// Build the two collections for a parsed object. For an object of the
    /// supported kind every structural entry is classified and indexed; any
    /// other container kind yields an empty analysis rather than an error.
    pub fn new(object: &Object) -> (r: Analysis)
        ensures
            *object matches Object::Elf(elf) ==> records_match(elf, r.franges@, r.memranges@),
            *object is Unsupported ==> r.franges@.len() == 0 && r.memranges@.len() == 0,
    {
        let mut franges: Vec<(MRange, MetaData)> = Vec::new();
        let mut memranges: Vec<(MRange, MetaData)> = Vec::new();
        match object {
            Object::Elf(elf) => {
                let ghost ph = elf.program_headers@;
                let ghost sh = elf.section_headers@;
                let nph = elf.program_headers.len();
                let mut idx: usize = 0;
                while idx < nph
                    invariant
                        nph == ph.len(),
                        ph == elf.program_headers@,
                        0 <= idx <= nph,
                        franges@.len() == idx,
                        memranges@.len() == idx,
                        forall|i: int|
                            0 <= i < idx ==> (#[trigger] franges@[i]).0 == ph[i].spec_file_range()
                                && phdr_metadata(ph[i], franges@[i].1),
                        forall|i: int|
                            0 <= i < idx ==> (#[trigger] memranges@[i]).0 == ph[i].spec_vm_range()
                                && phdr_metadata(ph[i], memranges@[i].1),
                    decreases nph - idx,
                {
                    let phdr = &elf.program_headers[idx];
                    let range = phdr.file_range();
                    let vmrange = phdr.vm_range();
                    let tag = MetaData::from_program_header(phdr);
                    franges.push((range, tag.clone()));
                    memranges.push((vmrange, tag));
                    idx += 1;
                }
                let nsh = elf.section_headers.len();
                let mut sdx: usize = 0;
                while sdx < nsh
                    invariant
                        nph == ph.len(),
                        nsh == sh.len(),
                        ph == elf.program_headers@,
                        sh == elf.section_headers@,
                        0 <= sdx <= nsh,
                        franges@.len() == nph + file_section_indices(sh.take(sdx as int)).len(),
                        memranges@.len() == nph + mem_section_indices(sh.take(sdx as int)).len(),
                        forall|i: int|
                            0 <= i < nph ==> (#[trigger] franges@[i]).0 == ph[i].spec_file_range()
                                && phdr_metadata(ph[i], franges@[i].1),
                        forall|i: int|
                            0 <= i < nph ==> (#[trigger] memranges@[i]).0 == ph[i].spec_vm_range()
                                && phdr_metadata(ph[i], memranges@[i].1),
                        forall|i: int|
                            nph <= i < franges@.len() ==> (#[trigger] franges@[i]).0 == sh[
                                file_section_indices(sh.take(sdx as int))[i - nph]
                            ].spec_file_mrange() && shdr_record(
                                sh[file_section_indices(sh.take(sdx as int))[i - nph]],
                                elf.shdr_strtab@,
                                franges@[i].1,
                            ),
                        forall|i: int|
                            nph <= i < memranges@.len() ==> (#[trigger] memranges@[i]).0 == sh[
                                mem_section_indices(sh.take(sdx as int))[i - nph]
                            ].spec_vm_range() && shdr_record(
                                sh[mem_section_indices(sh.take(sdx as int))[i - nph]],
                                elf.shdr_strtab@,
                                memranges@[i].1,
                            ),
                    decreases nsh - sdx,
                {
                    let shdr = &elf.section_headers[sdx];
                    proof {
                        lemma_kept_indices_take_step(
                            sh,
                            |h: SectionHeader| section_keeps_memory(h),
                            sdx as int,
                        );
                        lemma_kept_indices_take_step(
                            sh,
                            |h: SectionHeader| section_keeps_file(h),
                            sdx as int,
                        );
                    }
                    if shdr.sh_size != 0 {
                        let vmrange = shdr.vm_range();
                        let mut tag = MetaData::from_section_header(shdr);
                        tag.name = strtab_lookup(&elf.shdr_strtab, shdr.sh_name);
                        if let Some(range) = shdr.file_range() {
                            franges.push((range, tag.clone()));
                        }
                        memranges.push((vmrange, tag));
                    }
                    sdx += 1;
                }
                proof {
                    assert(sh.take(nsh as int) =~= sh);
                }
            },
            Object::Unsupported => {},
        }
        Analysis { franges, memranges }
    }
}

/// Law: among a supported object's records, a load segment's metadata
/// carries a memory descriptor iff the segment's type code is the loadable
/// kind; every other recognized type code leaves it absent.
pub proof fn lemma_segment_memory_iff_loadable(elf: Elf, r: Analysis, i: int)
    requires
        records_match(elf, r.franges@, r.memranges@),
        0 <= i < elf.program_headers@.len(),
    ensures
        r.memranges@[i].1.memory is Some <==> elf.program_headers@[i].p_type == PT_LOAD,
        r.franges@[i].1.memory is Some <==> elf.program_headers@[i].p_type == PT_LOAD,
{
    assert(r.memranges@[i].0 == elf.program_headers@[i].spec_vm_range());
    assert(r.franges@[i].0 == elf.program_headers@[i].spec_file_range());
}

/// Law: a section whose declared size is zero contributes no record to
/// either collection.
pub proof fn lemma_zero_size_section_excluded(shdrs: Seq<SectionHeader>, k: int)
    requires
        0 <= k < shdrs.len(),
        shdrs[k].sh_size == 0,
    ensures
        !mem_section_indices(shdrs).contains(k),
        !file_section_indices(shdrs).contains(k),
{
    lemma_mem_section_indices_facts(shdrs);
    lemma_file_section_indices_facts(shdrs);
    if mem_section_indices(shdrs).contains(k) {
        let j = choose|j: int|
            0 <= j < mem_section_indices(shdrs).len() && mem_section_indices(shdrs)[j] == k;
        assert(section_keeps_memory(shdrs[k]));
    }
    if file_section_indices(shdrs).contains(k) {
        let j = choose|j: int|
            0 <= j < file_section_indices(shdrs).len() && file_section_indices(shdrs)[j] == k;
        assert(section_keeps_file(shdrs[k]));
    }
}

/// Law: a no-bits section of nonzero size contributes no record to the
/// file-offset collection, and exactly one record to the virtual-address
/// collection — tagged `Zero`, with a memory descriptor.
pub proof fn lemma_nobits_section_memory_only(elf: Elf, r: Analysis, k: int)
    requires
        records_match(elf, r.franges@, r.memranges@),
        0 <= k < elf.section_headers@.len(),
        elf.section_headers@[k].sh_type == SHT_NOBITS,
        elf.section_headers@[k].sh_size != 0,
    ensures
        !file_section_indices(elf.section_headers@).contains(k),
        mem_section_indices(elf.section_headers@).contains(k),
        forall|j1: int, j2: int|
            0 <= j1 < mem_section_indices(elf.section_headers@).len() && 0 <= j2
                < mem_section_indices(elf.section_headers@).len() && #[trigger] mem_section_indices(
                elf.section_headers@,
            )[j1] == k && #[trigger] mem_section_indices(elf.section_headers@)[j2] == k ==> j1
                == j2,
        forall|j: int|
            0 <= j < mem_section_indices(elf.section_headers@).len() && #[trigger]
            mem_section_indices(elf.section_headers@)[j] == k ==> r.memranges@[
                elf.program_headers@.len() + j
            ].0 == elf.section_headers@[k].spec_vm_range() && r.memranges@[
                elf.program_headers@.len() + j
            ].1.tag == Tag::Zero && r.memranges@[elf.program_headers@.len() + j].1.memory is Some,
{
    let ph = elf.program_headers@;
    let sh = elf.section_headers@;
    let msec = mem_section_indices(sh);
    lemma_mem_section_indices_facts(sh);
    lemma_file_section_indices_facts(sh);
    assert(section_keeps_memory(sh[k]));
    if file_section_indices(sh).contains(k) {
        let j = choose|j: int|
            0 <= j < file_section_indices(sh).len() && file_section_indices(sh)[j] == k;
        assert(section_keeps_file(sh[k]));
        assert(sh[k].spec_has_file_storage());
    }
    assert forall|j: int| 0 <= j < msec.len() && #[trigger] msec[j] == k implies r.memranges@[
        ph.len() + j
    ].0 == sh[k].spec_vm_range() && r.memranges@[ph.len() + j].1.tag == Tag::Zero && r.memranges@[
        ph.len() + j
    ].1.memory is Some by {
        assert(ph.len() <= ph.len() + j < r.memranges@.len());
        assert(r.memranges@[ph.len() + j].0 == sh[msec[j]].spec_vm_range());
        assert(shdr_record(sh[k], elf.shdr_strtab@, r.memranges@[ph.len() + j].1));
        assert(section_tag(sh[k].sh_type) == Tag::Zero);
        assert(section_has_memory(sh[k].sh_type));
    }
}

/// Law: a program-bits-class section of nonzero size contributes exactly one
/// record to each collection — tagged `Code`, with a memory descriptor whose
/// permissions come from the allocated, writable and executable flags.
pub proof fn lemma_progbits_section_in_both(elf: Elf, r: Analysis, k: int)
    requires
        records_match(elf, r.franges@, r.memranges@),
        0 <= k < elf.section_headers@.len(),
        elf.section_headers@[k].sh_type == SHT_PROGBITS || elf.section_headers@[k].sh_type
            == SHT_INIT_ARRAY || elf.section_headers@[k].sh_type == SHT_FINI_ARRAY,
        elf.section_headers@[k].sh_size != 0,
    ensures
        mem_section_indices(elf.section_headers@).contains(k),
        file_section_indices(elf.section_headers@).contains(k),
        forall|j1: int, j2: int|
            0 <= j1 < mem_section_indices(elf.section_headers@).len() && 0 <= j2
                < mem_section_indices(elf.section_headers@).len() && #[trigger] mem_section_indices(
                elf.section_headers@,
            )[j1] == k && #[trigger] mem_section_indices(elf.section_headers@)[j2] == k ==> j1
                == j2,
        forall|j1: int, j2: int|
            0 <= j1 < file_section_indices(elf.section_headers@).len() && 0 <= j2
                < file_section_indices(elf.section_headers@).len()
                && #[trigger] file_section_indices(elf.section_headers@)[j1] == k
                && #[trigger] file_section_indices(elf.section_headers@)[j2] == k ==> j1 == j2,
        forall|j: int|
            0 <= j < mem_section_indices(elf.section_headers@).len() && #[trigger]
            mem_section_indices(elf.section_headers@)[j] == k ==> r.memranges@[
                elf.program_headers@.len() + j
            ].0 == elf.section_headers@[k].spec_vm_range() && r.memranges@[
                elf.program_headers@.len() + j
            ].1.tag == Tag::Code && (r.memranges@[elf.program_headers@.len() + j].1.memory
                matches Some(seg) && seg.alignment is None && shdr_permissions(
                seg.permissions,
                elf.section_headers@[k],
            )),
        forall|j: int|
            0 <= j < file_section_indices(elf.section_headers@).len() && #[trigger]
            file_section_indices(elf.section_headers@)[j] == k ==> r.franges@[
                elf.program_headers@.len() + j
            ].0 == elf.section_headers@[k].spec_file_mrange() && r.franges@[
                elf.program_headers@.len() + j
            ].1.tag == Tag::Code && (r.franges@[elf.program_headers@.len() + j].1.memory
                matches Some(seg) && seg.alignment is None && shdr_permissions(
                seg.permissions,
                elf.section_headers@[k],
            )),
{
    let ph = elf.program_headers@;
    let sh = elf.section_headers@;
    let msec = mem_section_indices(sh);
    let fsec = file_section_indices(sh);
    lemma_mem_section_indices_facts(sh);
    lemma_file_section_indices_facts(sh);
    assert(section_keeps_memory(sh[k]));
    assert(section_keeps_file(sh[k]));
    assert forall|j: int| 0 <= j < msec.len() && #[trigger] msec[j] == k implies r.memranges@[
        ph.len() + j
    ].0 == sh[k].spec_vm_range() && r.memranges@[ph.len() + j].1.tag == Tag::Code && (r.memranges@[
        ph.len() + j
    ].1.memory matches Some(seg) && seg.alignment is None && shdr_permissions(
        seg.permissions,
        sh[k],
    )) by {
        assert(ph.len() <= ph.len() + j < r.memranges@.len());
        assert(r.memranges@[ph.len() + j].0 == sh[msec[j]].spec_vm_range());
        assert(shdr_record(sh[k], elf.shdr_strtab@, r.memranges@[ph.len() + j].1));
        assert(section_tag(sh[k].sh_type) == Tag::Code);
        assert(section_has_memory(sh[k].sh_type));
    }
    assert forall|j: int| 0 <= j < fsec.len() && #[trigger] fsec[j] == k implies r.franges@[
        ph.len() + j
    ].0 == sh[k].spec_file_mrange() && r.franges@[ph.len() + j].1.tag == Tag::Code && (r.franges@[
        ph.len() + j
    ].1.memory matches Some(seg) && seg.alignment is None && shdr_permissions(
        seg.permissions,
        sh[k],
    )) by {
        assert(ph.len() <= ph.len() + j < r.franges@.len());
        assert(r.franges@[ph.len() + j].0 == sh[fsec[j]].spec_file_mrange());
        assert(shdr_record(sh[k], elf.shdr_strtab@, r.franges@[ph.len() + j].1));
        assert(section_tag(sh[k].sh_type) == Tag::Code);
        assert(section_has_memory(sh[k].sh_type));
    }
}

} // verus!
