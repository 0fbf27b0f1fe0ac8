//! Provides functions to print the textual representation of IL4IL modules.
pub mod print;

use vstd::prelude::*;
use crate::binary::parser::spec_views;
use crate::module::Module;
use crate::module::ModuleView;
use crate::module::section::Metadata;
use crate::module::section::MetadataView;
use crate::module::section::Section;
use crate::module::section::SectionView;
use crate::text::spec_decimal;
use crate::versioning::Format;
use crate::versioning::SupportedFormat;
use crate::disassemble::print::Printer;
use crate::disassemble::print::PrinterView;
use crate::disassemble::print::spec_attribute;
use crate::disassemble::print::spec_block;
use crate::disassemble::print::spec_directive;
use crate::disassemble::print::spec_finish;
use crate::disassemble::print::spec_finish_block;
use crate::disassemble::print::spec_indentation_text;
use crate::disassemble::print::spec_initial;
use crate::disassemble::print::IndentationCharacter;

verus! {

/// Trait for disassembly into IL4IL assembly.
pub trait Disassemble: View {
    /// Whether the value can be disassembled.
    spec fn spec_can_disassemble(v: Self::V) -> bool;

    /// The state of a printer after the value is disassembled with it.
    spec fn spec_disassemble(v: Self::V, p: PrinterView) -> PrinterView;

    /// How many blocks deep the disassembly of a value opens.
    spec fn spec_nesting() -> nat;

    /// Disassembling a value leaves the level of indentation as it was.
    proof fn lemma_level(v: Self::V, p: PrinterView)
        ensures
            Self::spec_disassemble(v, p).level == p.level,
    ;

    /// Prints the value as IL4IL assembly.
    fn disassemble(&self, output: &mut Printer)
        requires
            Self::spec_can_disassemble(self@),
            old(output)@.level + Self::spec_nesting() < 256,
        ensures
            final(output)@ == Self::spec_disassemble(self@, old(output)@),
    ;
}

/// Disassembling values one after the other leaves the level of indentation as it was.
pub proof fn lemma_many_level<D: Disassemble>(vs: Seq<D::V>, p: PrinterView)
    ensures
        spec_disassemble_many::<D>(vs, p).level == p.level,
    decreases vs.len(),
{
    if vs.len() > 0 {
        lemma_many_level::<D>(vs.drop_last(), p);
        D::lemma_level(vs.last(), spec_disassemble_many::<D>(vs.drop_last(), p));
    }
}

/// Disassembling values one after the other.
pub open spec fn spec_disassemble_many<D: Disassemble>(vs: Seq<D::V>, p: PrinterView) -> PrinterView
    decreases vs.len(),
{
    if vs.len() == 0 {
        p
    } else {
        D::spec_disassemble(vs.last(), spec_disassemble_many::<D>(vs.drop_last(), p))
    }
}

/// Disassembling one value alone is disassembling that value.
pub proof fn lemma_many_single<D: Disassemble>(v: D::V, p: PrinterView)
    ensures
        spec_disassemble_many::<D>(seq![v], p) == D::spec_disassemble(v, p),
{
    assert(seq![v].drop_last() =~= Seq::<D::V>::empty());
    assert(spec_disassemble_many::<D>(Seq::<D::V>::empty(), p) == p);
    assert(seq![v].last() == v);
}

/// Disassembling the values of two sequences one after the other is disassembling the first sequence and then, from
/// where it left the printer, the second: every value is printed, in order, and none is printed twice.
pub proof fn lemma_many_concat<D: Disassemble>(a: Seq<D::V>, b: Seq<D::V>, p: PrinterView)
    ensures
        spec_disassemble_many::<D>(a + b, p) == spec_disassemble_many::<D>(b, spec_disassemble_many::<D>(a, p)),
    decreases b.len(),
{
    if b.len() == 0 {
        assert(a + b =~= a);
    } else {
        lemma_many_concat::<D>(a, b.drop_last(), p);
        assert((a + b).drop_last() =~= a + b.drop_last());
        assert((a + b).last() == b.last());
    }
}

/// Whether every value can be disassembled.
pub open spec fn spec_all_can_disassemble<D: Disassemble>(vs: Seq<D::V>) -> bool {
    forall|i: int| 0 <= i < vs.len() ==> #[trigger] D::spec_can_disassemble(vs[i])
}

/// Disassembles the values one after the other.
fn disassemble_many<D: Disassemble>(items: &[D], output: &mut Printer)
    requires
        spec_all_can_disassemble::<D>(spec_views(items@)),
        old(output)@.level + D::spec_nesting() < 256,
    ensures
        final(output)@ == spec_disassemble_many::<D>(spec_views(items@), old(output)@),
{
    let ghost vs = spec_views(items@);
    let mut i: usize = 0;
    while i < items.len()
        invariant
            i <= items@.len(),
            vs == spec_views(items@),
            spec_all_can_disassemble::<D>(vs),
            output@ == spec_disassemble_many::<D>(vs.take(i as int), old(output)@),
            output@.level == old(output)@.level,
            old(output)@.level + D::spec_nesting() < 256,
        decreases items.len() - i,
    {
        assert(D::spec_can_disassemble(vs[i as int]));
        let ghost before = output@;
        items[i].disassemble(output);
        proof {
            D::lemma_level(vs[i as int], before);
        }
        assert(vs.take(i + 1).drop_last() =~= vs.take(i as int));
        i = i + 1;
    }
    assert(vs.take(items@.len() as int) =~= vs);
}

/// The disassembly of a format version.
pub open spec fn spec_disassemble_format(f: Format, p: PrinterView) -> PrinterView {
    let opened = spec_block(spec_directive(p, "format"@));
    let major = spec_finish(spec_attribute(spec_directive(opened, "major"@), spec_decimal(f.major as nat)));
    let minor = spec_finish(spec_attribute(spec_directive(major, "minor"@), spec_decimal(f.minor as nat)));
    spec_finish_block(minor)
}

impl Disassemble for Format {
    open spec fn spec_can_disassemble(f: Format) -> bool {
        true
    }

    open spec fn spec_disassemble(f: Format, p: PrinterView) -> PrinterView {
        spec_disassemble_format(f, p)
    }

    open spec fn spec_nesting() -> nat {
        1
    }

    proof fn lemma_level(f: Format, p: PrinterView) {
    }

    fn disassemble(&self, output: &mut Printer) {
        output.print_directive("format");
        output.block();
        output.print_directive("major");
        output.print_display(crate::text::decimal_string(self.major as u64).as_str());
        output.finish();
        output.print_directive("minor");
        output.print_display(crate::text::decimal_string(self.minor as u64).as_str());
        output.finish();
        output.finish_block();
    }
}

impl Disassemble for SupportedFormat {
    open spec fn spec_can_disassemble(f: Format) -> bool {
        true
    }

    open spec fn spec_disassemble(f: Format, p: PrinterView) -> PrinterView {
        spec_disassemble_format(f, p)
    }

    open spec fn spec_nesting() -> nat {
        1
    }

    proof fn lemma_level(f: Format, p: PrinterView) {
    }

    fn disassemble(&self, output: &mut Printer) {
        self.format().disassemble(output)
    }
}

/// The disassembly of a metadata entry.
pub open spec fn spec_disassemble_metadata(m: MetadataView, p: PrinterView) -> PrinterView {
    match m {
        MetadataView::Name(name) => spec_finish(spec_attribute(spec_directive(p, "name"@), crate::text::debug_text(name))),
    }
}

impl Disassemble for Metadata {
    open spec fn spec_can_disassemble(m: MetadataView) -> bool {
        true
    }

    open spec fn spec_disassemble(m: MetadataView, p: PrinterView) -> PrinterView {
        spec_disassemble_metadata(m, p)
    }

    open spec fn spec_nesting() -> nat {
        0
    }

    proof fn lemma_level(m: MetadataView, p: PrinterView) {
    }

    fn disassemble(&self, output: &mut Printer) {
        match self {
            Metadata::Name(name) => {
                output.print_directive("name");
                output.print_display(crate::text::debug_quote(name.name.as_str()).as_str());
                output.finish();
            },
        }
    }
}

/// The disassembly of a section, which is only defined for metadata sections.
pub open spec fn spec_disassemble_section(s: SectionView, p: PrinterView) -> PrinterView {
    match s {
        SectionView::Metadata(entries) => spec_finish_block(
            spec_disassemble_many::<Metadata>(
                entries,
                spec_block(spec_attribute(spec_directive(p, "section"@), "metadata"@)),
            ),
        ),
        _ => p,
    }
}

impl Disassemble for Section {
    /// Only metadata sections can be disassembled.
    open spec fn spec_can_disassemble(s: SectionView) -> bool {
        s is Metadata
    }

    open spec fn spec_disassemble(s: SectionView, p: PrinterView) -> PrinterView {
        spec_disassemble_section(s, p)
    }

    open spec fn spec_nesting() -> nat {
        1
    }

    proof fn lemma_level(s: SectionView, p: PrinterView) {
        if let SectionView::Metadata(entries) = s {
            let opened = spec_block(spec_attribute(spec_directive(p, "section"@), "metadata"@));
            lemma_many_level::<Metadata>(entries, opened);
        }
    }

    fn disassemble(&self, output: &mut Printer) {
        match self {
            Section::Metadata(metadata) => {
                output.print_directive("section");
                output.print_display("metadata");
                output.block();
                let ghost opened = output@;
                disassemble_many(metadata.as_slice(), output);
                proof {
                    lemma_many_level::<Metadata>(spec_views(metadata@), opened);
                }
                output.finish_block();
            },
            _ => {},
        }
    }
}

/// The disassembly of a module: its format version, followed by its sections.
pub open spec fn spec_disassemble_module(m: ModuleView, p: PrinterView) -> PrinterView {
    spec_disassemble_many::<Section>(m.sections, spec_disassemble_format(m.format_version, p))
}

/// Disassembling a module whose sections are those of `a` followed by those of `b` is disassembling the module with the
/// sections of `a` and then each section of `b`, in order.
pub proof fn lemma_module_sections(format_version: Format, a: Seq<SectionView>, b: Seq<SectionView>, p: PrinterView)
    ensures
        spec_disassemble_module(ModuleView { format_version, sections: a + b }, p) == spec_disassemble_many::<Section>(
            b,
            spec_disassemble_module(ModuleView { format_version, sections: a }, p),
        ),
{
    lemma_many_concat::<Section>(a, b, spec_disassemble_format(format_version, p));
}

/// A metadata section with the entries of `e` followed by those of `f` is printed as the section with the entries of
/// `e`, up to where that one is closed, followed by each entry of `f`, in order, and then closed.
pub proof fn lemma_metadata_section_entries(e: Seq<MetadataView>, f: Seq<MetadataView>, p: PrinterView)
    ensures
        exists|open: PrinterView|
            spec_disassemble_section(SectionView::Metadata(e), p) == #[trigger] spec_finish_block(open)
                && spec_disassemble_section(SectionView::Metadata(e + f), p) == spec_finish_block(
                spec_disassemble_many::<Metadata>(f, open),
            ),
{
    let opened = spec_block(spec_attribute(spec_directive(p, "section"@), "metadata"@));
    lemma_many_concat::<Metadata>(e, f, opened);
    let open = spec_disassemble_many::<Metadata>(e, opened);
    assert(spec_disassemble_section(SectionView::Metadata(e), p) == spec_finish_block(open));
}

impl Disassemble for Module {
    /// A module can be disassembled when all of its sections are metadata sections.
    open spec fn spec_can_disassemble(m: ModuleView) -> bool {
        spec_all_can_disassemble::<Section>(m.sections)
    }

    open spec fn spec_disassemble(m: ModuleView, p: PrinterView) -> PrinterView {
        spec_disassemble_module(m, p)
    }

    open spec fn spec_nesting() -> nat {
        1
    }

    proof fn lemma_level(m: ModuleView, p: PrinterView) {
        lemma_many_level::<Section>(m.sections, spec_disassemble_format(m.format_version, p));
    }

    fn disassemble(&self, output: &mut Printer) {
        self.format_version().disassemble(output);
        proof {
            SupportedFormat::lemma_level(self@.format_version, old(output)@);
        }
        disassemble_many(self.sections().as_slice(), output);
    }
}

/// Produces the IL4IL assembly of a value, indented with four spaces.
pub fn disassembly_to_string<D: Disassemble>(d: &D) -> (r: String)
    requires
        D::spec_can_disassemble(d@),
        D::spec_nesting() < 256,
    ensures
        r@ == D::spec_disassemble(d@, spec_initial(spec_indentation_text(IndentationCharacter::Space, 4))).text,
{
    let mut printer = Printer::new();
    d.disassemble(&mut printer);
    printer.into_string()
}

} // verus!
