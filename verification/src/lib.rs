//! Address-range metadata for parsed executable files.
//!
//! Given the structural tables of a parsed object file (load segments and
//! sections), this library derives a semantic tag and a permission set for
//! each entry and assembles two collections of `(range, metadata)` pairs:
//! one keyed by file-offset ranges, one keyed by virtual-address ranges.

pub mod analysis;
pub mod metadata;
pub mod object;
pub mod range;

pub use analysis::Analysis;
pub use metadata::MetaData;
pub use metadata::Permissions;
pub use metadata::Segment;
pub use metadata::Tag;
pub use object::Elf;
pub use object::Object;
pub use object::ProgramHeader;
pub use object::SectionHeader;
pub use range::MRange;
