//! Metadata of packages, as their `meta` routine declares it.

use vstd::prelude::*;
use crate::instruction::{InstrKind, InstrKindView, InstructionView};
use crate::lex::TextPos;
use crate::parse::{Parsed, ParsedView, METADATA_ROUTINE};
use crate::text::{clone_optional, clone_strings};

verus! {

/// Package metadata derived from running the 'meta' routine.
#[derive(Debug)]
pub struct PackageMetadata {
    pub name: Option<String>,
    pub description: Option<String>,
    pub long_description: Option<String>,
    pub version: Option<String>,
    pub authors: Option<Vec<String>>,
    pub package_maintainers: Option<Vec<String>>,
    pub website: Option<String>,
    pub support_link: Option<String>,
    pub documentation: Option<String>,
    pub source: Option<String>,
    pub issues: Option<String>,
    pub community: Option<String>,
    pub icon: Option<String>,
    pub banner: Option<String>,
    pub license: Option<String>,
}

/// The mathematical value of [`PackageMetadata`].
pub struct PackageMetadataView {
    pub name: Option<Seq<char>>,
    pub description: Option<Seq<char>>,
    pub long_description: Option<Seq<char>>,
    pub version: Option<Seq<char>>,
    pub authors: Option<Seq<Seq<char>>>,
    pub package_maintainers: Option<Seq<Seq<char>>>,
    pub website: Option<Seq<char>>,
    pub support_link: Option<Seq<char>>,
    pub documentation: Option<Seq<char>>,
    pub source: Option<Seq<char>>,
    pub issues: Option<Seq<char>>,
    pub community: Option<Seq<char>>,
    pub icon: Option<Seq<char>>,
    pub banner: Option<Seq<char>>,
    pub license: Option<Seq<char>>,
}

impl View for PackageMetadata {
    type V = PackageMetadataView;

    open spec fn view(&self) -> PackageMetadataView {
        PackageMetadataView {
            name: self.name.deep_view(),
            description: self.description.deep_view(),
            long_description: self.long_description.deep_view(),
            version: self.version.deep_view(),
            authors: self.authors.deep_view(),
            package_maintainers: self.package_maintainers.deep_view(),
            website: self.website.deep_view(),
            support_link: self.support_link.deep_view(),
            documentation: self.documentation.deep_view(),
            source: self.source.deep_view(),
            issues: self.issues.deep_view(),
            community: self.community.deep_view(),
            icon: self.icon.deep_view(),
            banner: self.banner.deep_view(),
            license: self.license.deep_view(),
        }
    }
}

impl PackageMetadataView {
    /// Metadata that declares nothing.
    pub open spec fn empty() -> PackageMetadataView {
        PackageMetadataView {
            name: None,
            description: None,
            long_description: None,
            version: None,
            authors: None,
            package_maintainers: None,
            website: None,
            support_link: None,
            documentation: None,
            source: None,
            issues: None,
            community: None,
            icon: None,
            banner: None,
            license: None,
        }
    }

    /// The metadata after an instruction that declares one of its fields;
    /// nothing for every other instruction.
    pub open spec fn declare(self, kind: InstrKindView) -> Option<PackageMetadataView> {
        match kind {
            InstrKindView::Name(text) => Some(PackageMetadataView { name: text, ..self }),
            InstrKindView::Description(text) => Some(
                PackageMetadataView { description: text, ..self },
            ),
            InstrKindView::LongDescription(text) => Some(
                PackageMetadataView { long_description: text, ..self },
            ),
            InstrKindView::Version(text) => Some(PackageMetadataView { version: text, ..self }),
            InstrKindView::Authors(list) => Some(
                PackageMetadataView { authors: Some(list), ..self },
            ),
            InstrKindView::PackageMaintainers(list) => Some(
                PackageMetadataView { package_maintainers: Some(list), ..self },
            ),
            InstrKindView::Website(text) => Some(PackageMetadataView { website: text, ..self }),
            InstrKindView::SupportLink(text) => Some(
                PackageMetadataView { support_link: text, ..self },
            ),
            InstrKindView::Documentation(text) => Some(
                PackageMetadataView { documentation: text, ..self },
            ),
            InstrKindView::Source(text) => Some(PackageMetadataView { source: text, ..self }),
            InstrKindView::Issues(text) => Some(PackageMetadataView { issues: text, ..self }),
            InstrKindView::Community(text) => Some(PackageMetadataView { community: text, ..self }),
            InstrKindView::Icon(text) => Some(PackageMetadataView { icon: text, ..self }),
            InstrKindView::Banner(text) => Some(PackageMetadataView { banner: text, ..self }),
            InstrKindView::License(text) => Some(PackageMetadataView { license: text, ..self }),
            _ => None,
        }
    }

    /// The metadata after the instructions from index `from` on, where all
    /// of them declare metadata; else the position of the first that does
    /// not.
    pub open spec fn collect(self, instrs: Seq<InstructionView>, from: int) -> Result<
        PackageMetadataView,
        MetadataError,
    >
        decreases instrs.len() - from,
    {
        if 0 <= from < instrs.len() {
            match self.declare(instrs[from].kind) {
                Some(declared) => declared.collect(instrs, from + 1),
                None => Err(MetadataError { pos: instrs[from].pos }),
            }
        } else {
            Ok(self)
        }
    }
}

impl Default for PackageMetadata {
    fn default() -> (r: Self)
        ensures
            r@ == PackageMetadataView::empty(),
    {
        PackageMetadata {
            name: None,
            description: None,
            long_description: None,
            version: None,
            authors: None,
            package_maintainers: None,
            website: None,
            support_link: None,
            documentation: None,
            source: None,
            issues: None,
            community: None,
            icon: None,
            banner: None,
            license: None,
        }
    }
}

/// The error for an instruction in the `meta` routine that declares no
/// metadata.
#[derive(Debug, Clone, Copy, PartialEq, Eq, Structural)]
pub struct MetadataError {
    /// Where the instruction is written.
    pub pos: TextPos,
}

/// The metadata that a script declares: that of its `meta` routine, and
/// nothing where it has none.
pub open spec fn metadata_of(parsed: ParsedView) -> Result<PackageMetadataView, MetadataError> {
    match parsed.routine(METADATA_ROUTINE@) {
        Some(instrs) => PackageMetadataView::empty().collect(instrs, 0),
        None => Ok(PackageMetadataView::empty()),
    }
}

/// Collect the metadata from a package.
pub fn eval_metadata(parsed: &Parsed) -> (r: Result<PackageMetadata, MetadataError>)
    ensures
        match metadata_of(parsed@) {
            Ok(meta) => r matches Ok(got) && got@ == meta,
            Err(e) => r == Err::<PackageMetadata, MetadataError>(e),
        },
{
    if let Some(routine_id) = parsed.get_routine(METADATA_ROUTINE) {
        if let Some(block) = parsed.get_block(routine_id) {
            let mut out = PackageMetadata::default();
            let ghost instrs = block.contents.deep_view();
            assert(parsed@.blocks[routine_id as int] == instrs);
            let mut i: usize = 0;
            while i < block.contents.len()
                invariant
                    i <= block.contents.len(),
                    instrs == block.contents.deep_view(),
                    metadata_of(parsed@) == PackageMetadataView::empty().collect(instrs, 0),
                    PackageMetadataView::empty().collect(instrs, 0) == out@.collect(
                        instrs,
                        i as int,
                    ),
                decreases block.contents.len() - i,
            {
                let instr = &block.contents[i];
                assert(instrs[i as int] == instr@);
                match &instr.kind {
                    InstrKind::Name(val) => out.name = clone_optional(val),
                    InstrKind::Description(val) => out.description = clone_optional(val),
                    InstrKind::LongDescription(val) => out.long_description = clone_optional(val),
                    InstrKind::Version(val) => out.version = clone_optional(val),
                    InstrKind::Authors(val) => out.authors = Some(clone_strings(val)),
                    InstrKind::PackageMaintainers(val) => {
                        out.package_maintainers = Some(clone_strings(val))
                    },
                    InstrKind::Website(val) => out.website = clone_optional(val),
                    InstrKind::SupportLink(val) => out.support_link = clone_optional(val),
                    InstrKind::Documentation(val) => out.documentation = clone_optional(val),
                    InstrKind::Source(val) => out.source = clone_optional(val),
                    InstrKind::Issues(val) => out.issues = clone_optional(val),
                    InstrKind::Community(val) => out.community = clone_optional(val),
                    InstrKind::Icon(val) => out.icon = clone_optional(val),
                    InstrKind::Banner(val) => out.banner = clone_optional(val),
                    InstrKind::License(val) => out.license = clone_optional(val),
                    _ => {
                        return Err(MetadataError { pos: instr.pos });
                    },
                }
                i += 1;
            }
            Ok(out)
        } else {
            Ok(PackageMetadata::default())
        }
    } else {
        Ok(PackageMetadata::default())
    }
}

} // verus!
