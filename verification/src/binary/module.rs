//! Reading and writing of format versions, sections, and whole modules.
use vstd::prelude::*;
use crate::binary::RoundTrip;
use crate::binary::lemma_parse_length_round_trip;
use crate::binary::lemma_prefixed_round_trip;
use crate::binary::magic;
use crate::binary::spec_all_round_trip;
use crate::binary::spec_length_bytes;
use crate::binary::spec_magic;
use crate::binary::spec_then;
use crate::binary::parser::Error;
use crate::binary::parser::ErrorKind;
use crate::binary::parser::FlagsKind;
use crate::binary::parser::InvalidFlagsError;
use crate::binary::parser::InvalidMagicError;
use crate::binary::parser::Parsed;
use crate::binary::parser::ReadFrom;
use crate::binary::parser::SectionLengthError;
use crate::binary::parser::Source;
use crate::binary::parser::lemma_advanced;
use crate::binary::parser::parse_length;
use crate::binary::parser::parse_many_length_encoded;
use crate::binary::parser::spec_parse_length;
use crate::binary::parser::spec_read_outcome;
use crate::binary::parser::spec_read_prefixed;
use crate::binary::writer::Destination;
use crate::binary::writer::LengthPrefixed;
use crate::binary::writer::WriteTo;
use crate::binary::writer::lemma_prefix_concat;
use crate::binary::writer::spec_write_outcome;
use crate::binary::writer::spec_write_prefixed;
use crate::binary::writer::write_length;
use crate::function::Body;
use crate::function::Definition;
use crate::function::Import;
use crate::function::Instantiation;
use crate::function::Signature;
use crate::index::Index;
use crate::integer::EncodingError;
use crate::module::Module;
use crate::module::ModuleName;
use crate::module::ModuleView;
use crate::module::section::Metadata;
use crate::module::section::Section;
use crate::module::section::SectionKind;
use crate::module::section::SectionView;
use crate::module::section::spec_section_kind_byte;
use crate::module::section::spec_section_view_kind;
use crate::symbol::Assignment;
use crate::type_system::Type;
use crate::versioning::Format;
use crate::versioning::SupportedFormat;
use crate::versioning::spec_is_supported;

verus! {

/// Reading a format version: its major version number, followed by its minor version number.
pub open spec fn spec_read_format(s: Seq<u8>) -> Parsed<Format> {
    if s.len() < 2 {
        Err((ErrorKind::EndOfInput, 0))
    } else {
        Ok((Format { major: s[0], minor: s[1] }, 2))
    }
}

/// The bytes written for a format version.
pub open spec fn spec_write_format(f: Format) -> Seq<u8> {
    seq![f.major, f.minor]
}

impl ReadFrom for Format {
    open spec fn spec_read(s: Seq<u8>) -> Parsed<Format> {
        spec_read_format(s)
    }

    #[verifier::spinoff_prover]
    fn read_from(source: &mut Source) -> (r: Result<Format, Error>) {
        let bytes = source.read_bytes(2)?;
        Ok(Format::new(bytes[0], bytes[1]))
    }
}

impl WriteTo for Format {
    open spec fn spec_write(f: Format) -> Option<Seq<u8>> {
        Some(spec_write_format(f))
    }

    fn write_to(&self, out: &mut Destination) -> (r: Result<(), EncodingError>) {
        out.write_byte(self.major);
        out.write_byte(self.minor);
        assert(out@ =~= old(out)@ + spec_write_format(*self));
        Ok(())
    }
}

/// Reading a format version that this library supports.
pub open spec fn spec_read_supported_format(s: Seq<u8>) -> Parsed<Format> {
    match spec_read_format(s) {
        Ok((f, n)) => if spec_is_supported(f) {
            Ok((f, n))
        } else {
            Err((ErrorKind::UnsupportedFormat(f), 0))
        },
        Err(e) => Err(e),
    }
}

impl ReadFrom for SupportedFormat {
    open spec fn spec_read(s: Seq<u8>) -> Parsed<Format> {
        spec_read_supported_format(s)
    }

    #[verifier::spinoff_prover]
    fn read_from(source: &mut Source) -> (r: Result<SupportedFormat, Error>) {
        let start = source.file_offset();
        let format = Format::read_from(source)?;
        match SupportedFormat::new(format) {
            Ok(supported) => Ok(supported),
            Err(_) => Err(Error { kind: ErrorKind::UnsupportedFormat(format), file_offset: start }),
        }
    }
}

/// The section kind written as a byte.
pub open spec fn spec_section_kind_of(b: u8) -> Option<SectionKind> {
    if b == 0 {
        Some(SectionKind::Metadata)
    } else if b == 1 {
        Some(SectionKind::ModuleImport)
    } else if b == 3 {
        Some(SectionKind::Symbol)
    } else if b == 4 {
        Some(SectionKind::Type)
    } else if b == 5 {
        Some(SectionKind::FunctionSignature)
    } else if b == 6 {
        Some(SectionKind::FunctionInstantiation)
    } else if b == 7 {
        Some(SectionKind::FunctionImport)
    } else if b == 8 {
        Some(SectionKind::FunctionDefinition)
    } else if b == 9 {
        Some(SectionKind::Code)
    } else if b == 10 {
        Some(SectionKind::EntryPoint)
    } else {
        None
    }
}

/// Section kinds and their bytes correspond one to one.
pub proof fn lemma_section_kind_of(b: u8, kind: SectionKind)
    ensures
        spec_section_kind_of(b) == Some(kind) <==> spec_section_kind_byte(kind) == b,
{
}

/// Wraps the outcome of reading the contents of a section.
pub open spec fn spec_section_contents<V>(p: Parsed<Seq<V>>, wrap: spec_fn(Seq<V>) -> SectionView) -> Parsed<SectionView> {
    match p {
        Ok((vs, n)) => Ok((wrap(vs), n)),
        Err(e) => Err(e),
    }
}

/// Reading the contents of a section of the given kind: the entries after their count, or the index of the entry point.
pub open spec fn spec_read_section_contents(kind: SectionKind, s: Seq<u8>) -> Parsed<SectionView> {
    match kind {
        SectionKind::Metadata => spec_section_contents(
            spec_read_prefixed::<Metadata>(s),
            |v| SectionView::Metadata(v),
        ),
        SectionKind::ModuleImport => spec_section_contents(
            spec_read_prefixed::<ModuleName>(s),
            |v| SectionView::ModuleImport(v),
        ),
        SectionKind::Symbol => spec_section_contents(spec_read_prefixed::<Assignment>(s), |v| SectionView::Symbol(v)),
        SectionKind::Type => spec_section_contents(spec_read_prefixed::<Type>(s), |v| SectionView::Type(v)),
        SectionKind::FunctionSignature => spec_section_contents(
            spec_read_prefixed::<Signature>(s),
            |v| SectionView::FunctionSignature(v),
        ),
        SectionKind::FunctionInstantiation => spec_section_contents(
            spec_read_prefixed::<Instantiation>(s),
            |v| SectionView::FunctionInstantiation(v),
        ),
        SectionKind::FunctionImport => spec_section_contents(
            spec_read_prefixed::<Import>(s),
            |v| SectionView::FunctionImport(v),
        ),
        SectionKind::FunctionDefinition => spec_section_contents(
            spec_read_prefixed::<Definition>(s),
            |v| SectionView::FunctionDefinition(v),
        ),
        SectionKind::Code => spec_section_contents(spec_read_prefixed::<Body>(s), |v| SectionView::Code(v)),
        SectionKind::EntryPoint => match spec_parse_length(s) {
            Ok((index, n)) => Ok((SectionView::EntryPoint(index as usize), n)),
            Err(e) => Err(e),
        },
    }
}

/// Reading a section: its kind, the number of bytes of its contents, and its contents, which must have that length.
pub open spec fn spec_read_section(s: Seq<u8>) -> Parsed<SectionView> {
    if s.len() == 0 {
        Err((ErrorKind::EndOfInput, 0))
    } else {
        match spec_section_kind_of(s[0]) {
            None => Err((ErrorKind::InvalidFlags(InvalidFlagsError { name: FlagsKind::SectionKind, value: s[0] }), 0)),
            Some(kind) => match spec_parse_length(s.skip(1)) {
                Err((k, o)) => Err((k, 1 + o)),
                Ok((expected, n)) => match spec_read_section_contents(kind, s.skip((1 + n) as int)) {
                    Err((k, o)) => Err((k, 1 + n + o)),
                    Ok((section, actual)) => if actual == expected {
                        Ok((section, 1 + n + actual))
                    } else {
                        Err(
                            (
                                ErrorKind::SectionLengthMismatch(
                                    SectionLengthError {
                                        section: kind,
                                        expected: expected as usize,
                                        actual: actual as usize,
                                    },
                                ),
                                1 + n + actual,
                            ),
                        )
                    },
                },
            },
        }
    }
}

/// The bytes written for the contents of a section.
pub open spec fn spec_write_section_contents(section: SectionView) -> Option<Seq<u8>> {
    match section {
        SectionView::Metadata(v) => spec_write_prefixed::<Metadata>(v),
        SectionView::ModuleImport(v) => spec_write_prefixed::<ModuleName>(v),
        SectionView::Symbol(v) => spec_write_prefixed::<Assignment>(v),
        SectionView::Type(v) => spec_write_prefixed::<Type>(v),
        SectionView::FunctionSignature(v) => spec_write_prefixed::<Signature>(v),
        SectionView::FunctionInstantiation(v) => spec_write_prefixed::<Instantiation>(v),
        SectionView::FunctionImport(v) => spec_write_prefixed::<Import>(v),
        SectionView::FunctionDefinition(v) => spec_write_prefixed::<Definition>(v),
        SectionView::Code(v) => spec_write_prefixed::<Body>(v),
        SectionView::EntryPoint(index) => spec_length_bytes(index as nat),
    }
}

/// The bytes written for a section.
pub open spec fn spec_write_section(section: SectionView) -> Option<Seq<u8>> {
    match spec_write_section_contents(section) {
        None => None,
        Some(contents) => spec_then(
            Some(seq![spec_section_kind_byte(spec_section_view_kind(section))]),
            spec_then(spec_length_bytes(contents.len()), Some(contents)),
        ),
    }
}

/// Reads the contents of a section of the given kind.
#[verifier::rlimit(80)]
#[verifier::spinoff_prover]
fn read_section_contents(source: &mut Source, kind: SectionKind) -> (r: Result<Section, Error>)
    ensures
        spec_read_outcome(*old(source), *final(source), spec_read_section_contents(kind, old(source).rest()), r),
{
    match kind {
        SectionKind::Metadata => Ok(Section::Metadata(parse_many_length_encoded(source)?)),
        SectionKind::ModuleImport => Ok(Section::ModuleImport(parse_many_length_encoded(source)?)),
        SectionKind::Symbol => Ok(Section::Symbol(parse_many_length_encoded(source)?)),
        SectionKind::Type => Ok(Section::Type(parse_many_length_encoded(source)?)),
        SectionKind::FunctionSignature => Ok(Section::FunctionSignature(parse_many_length_encoded(source)?)),
        SectionKind::FunctionInstantiation => Ok(Section::FunctionInstantiation(parse_many_length_encoded(source)?)),
        SectionKind::FunctionImport => Ok(Section::FunctionImport(parse_many_length_encoded(source)?)),
        SectionKind::FunctionDefinition => Ok(Section::FunctionDefinition(parse_many_length_encoded(source)?)),
        SectionKind::Code => Ok(Section::Code(parse_many_length_encoded(source)?)),
        SectionKind::EntryPoint => Ok(Section::EntryPoint(Index::new(parse_length(source)?))),
    }
}

impl ReadFrom for Section {
    open spec fn spec_read(s: Seq<u8>) -> Parsed<SectionView> {
        spec_read_section(s)
    }

    #[verifier::spinoff_prover]
    fn read_from(source: &mut Source) -> (r: Result<Section, Error>) {
        let start = source.file_offset();
        let flags = u8::read_from(source)?;
        let kind = match SectionKind::new(flags) {
            Some(kind) => kind,
            None => {
                proof {
                    if let Some(k) = spec_section_kind_of(flags) {
                        lemma_section_kind_of(flags, k);
                    }
                }
                return Err(
                    Error {
                        kind: ErrorKind::InvalidFlags(InvalidFlagsError { name: FlagsKind::SectionKind, value: flags }),
                        file_offset: start,
                    },
                );
            },
        };
        proof {
            lemma_section_kind_of(flags, kind);
        }
        source.check_offset();
        proof {
            lemma_advanced(*old(source), *source);
        }
        let expected = parse_length(source)?;
        source.check_offset();
        proof {
            lemma_advanced(*old(source), *source);
        }
        let contents_start = source.file_offset();
        let section = read_section_contents(source, kind)?;
        let end = source.file_offset();
        let actual = end - contents_start;
        if actual != expected {
            return Err(
                Error {
                    kind: ErrorKind::SectionLengthMismatch(SectionLengthError { section: kind, expected, actual }),
                    file_offset: end,
                },
            );
        }
        Ok(section)
    }
}

/// Writes the contents of a section.
fn write_section_contents(section: &Section, out: &mut Destination) -> (r: Result<(), EncodingError>)
    ensures
        spec_write_outcome(old(out)@, final(out)@, spec_write_section_contents(section@), r),
{
    match section {
        Section::Metadata(v) => LengthPrefixed(v.as_slice()).write_to(out),
        Section::ModuleImport(v) => LengthPrefixed(v.as_slice()).write_to(out),
        Section::Symbol(v) => LengthPrefixed(v.as_slice()).write_to(out),
        Section::Type(v) => LengthPrefixed(v.as_slice()).write_to(out),
        Section::FunctionSignature(v) => LengthPrefixed(v.as_slice()).write_to(out),
        Section::FunctionInstantiation(v) => LengthPrefixed(v.as_slice()).write_to(out),
        Section::FunctionImport(v) => LengthPrefixed(v.as_slice()).write_to(out),
        Section::FunctionDefinition(v) => LengthPrefixed(v.as_slice()).write_to(out),
        Section::Code(v) => LengthPrefixed(v.as_slice()).write_to(out),
        Section::EntryPoint(index) => write_length(index.get(), out),
    }
}

impl WriteTo for Section {
    open spec fn spec_write(section: SectionView) -> Option<Seq<u8>> {
        spec_write_section(section)
    }

    fn write_to(&self, out: &mut Destination) -> (r: Result<(), EncodingError>) {
        let mut contents = Destination::new();
        let result = write_section_contents(self, &mut contents);
        if result.is_err() {
            proof {
                vstd::seq_lib::lemma_seq_skip_nothing(old(out)@, 0);
                assert(old(out)@.subrange(0, old(out)@.len() as int) =~= old(out)@);
            }
            return result;
        }
        let ghost c = contents@;
        assert(c == spec_write_section_contents(self@).unwrap());
        out.write_byte(self.kind().to_u8());
        let ghost head = seq![spec_section_kind_byte(spec_section_view_kind(self@))];
        assert(out@ =~= old(out)@ + head);
        let result = write_length(contents.len(), out);
        if result.is_err() {
            proof {
                lemma_prefix_concat(old(out)@, head, out@);
            }
            return result;
        }
        let ghost after = out@;
        out.write_all(contents.as_slice());
        assert(out@ =~= old(out)@ + (head + (spec_length_bytes(c.len()).unwrap() + c)));
        Ok(())
    }
}

/// Whether reading gives back each of the entries of a section after writing them.
pub open spec fn spec_section_round_trips(section: SectionView) -> bool {
    match section {
        SectionView::Metadata(v) => spec_all_round_trip::<Metadata>(v),
        SectionView::ModuleImport(v) => spec_all_round_trip::<ModuleName>(v),
        SectionView::Symbol(v) => spec_all_round_trip::<Assignment>(v),
        SectionView::Type(v) => spec_all_round_trip::<Type>(v),
        SectionView::FunctionSignature(v) => spec_all_round_trip::<Signature>(v),
        SectionView::FunctionInstantiation(v) => spec_all_round_trip::<Instantiation>(v),
        SectionView::FunctionImport(v) => spec_all_round_trip::<Import>(v),
        SectionView::FunctionDefinition(v) => spec_all_round_trip::<Definition>(v),
        SectionView::Code(v) => spec_all_round_trip::<Body>(v),
        SectionView::EntryPoint(_) => true,
    }
}

/// The contents of a section are read back after they are written, whatever bytes follow them.
proof fn lemma_section_contents_round_trip(section: SectionView, rest: Seq<u8>)
    requires
        spec_section_round_trips(section),
        spec_write_section_contents(section) is Some,
    ensures
        spec_read_section_contents(
            spec_section_view_kind(section),
            spec_write_section_contents(section).unwrap() + rest,
        ) == Ok::<(SectionView, nat), (ErrorKind, nat)>((section, spec_write_section_contents(section).unwrap().len())),
{
    match section {
        SectionView::Metadata(v) => lemma_prefixed_round_trip::<Metadata>(v, rest),
        SectionView::ModuleImport(v) => lemma_prefixed_round_trip::<ModuleName>(v, rest),
        SectionView::Symbol(v) => lemma_prefixed_round_trip::<Assignment>(v, rest),
        SectionView::Type(v) => lemma_prefixed_round_trip::<Type>(v, rest),
        SectionView::FunctionSignature(v) => lemma_prefixed_round_trip::<Signature>(v, rest),
        SectionView::FunctionInstantiation(v) => lemma_prefixed_round_trip::<Instantiation>(v, rest),
        SectionView::FunctionImport(v) => lemma_prefixed_round_trip::<Import>(v, rest),
        SectionView::FunctionDefinition(v) => lemma_prefixed_round_trip::<Definition>(v, rest),
        SectionView::Code(v) => lemma_prefixed_round_trip::<Body>(v, rest),
        SectionView::EntryPoint(index) => lemma_parse_length_round_trip(index as nat, rest),
    }
}

impl RoundTrip for Section {
    open spec fn spec_round_trips(section: SectionView) -> bool {
        spec_section_round_trips(section)
    }

    #[verifier::spinoff_prover]
    #[verifier::rlimit(60)]
    proof fn lemma_round_trip(section: SectionView, rest: Seq<u8>) {
        let kind = spec_section_view_kind(section);
        let c = spec_write_section_contents(section).unwrap();
        let head = seq![spec_section_kind_byte(kind)];
        let l = spec_length_bytes(c.len()).unwrap();
        let s = spec_write_section(section).unwrap() + rest;
        assert(s =~= head + (l + (c + rest)));
        lemma_section_kind_of(spec_section_kind_byte(kind), kind);
        assert(s.skip(1) =~= l + (c + rest));
        lemma_parse_length_round_trip(c.len(), c + rest);
        assert(s.skip((1 + l.len()) as int) =~= c + rest);
        lemma_section_contents_round_trip(section, rest);
    }
}

/// Reading a module: the magic value, the format version, and the sections after their count.
pub open spec fn spec_read_module(s: Seq<u8>) -> Parsed<ModuleView> {
    if s.len() < 6 || s.take(6) != spec_magic() {
        Err((ErrorKind::InvalidMagic(InvalidMagicError), 0))
    } else {
        match spec_read_supported_format(s.skip(6)) {
            Err((k, o)) => Err((k, 6 + o)),
            Ok((format_version, n)) => match spec_read_prefixed::<Section>(s.skip((6 + n) as int)) {
                Err((k, o)) => Err((k, 6 + n + o)),
                Ok((sections, m)) => Ok((ModuleView { format_version, sections }, 6 + n + m)),
            },
        }
    }
}

/// The bytes written for a module.
pub open spec fn spec_write_module(m: ModuleView) -> Option<Seq<u8>> {
    spec_then(Some(spec_magic() + spec_write_format(m.format_version)), spec_write_prefixed::<Section>(m.sections))
}

/// Whether the bytes start with the module magic value.
fn starts_with_magic(bytes: &[u8]) -> (r: bool)
    ensures
        r == (bytes@.len() >= 6 && bytes@.take(6) == spec_magic()),
{
    let expected = magic();
    if bytes.len() < 6 {
        return false;
    }
    let mut i: usize = 0;
    while i < 6
        invariant
            i <= 6,
            bytes@.len() >= 6,
            expected@ == spec_magic(),
            forall|j: int| 0 <= j < i ==> bytes@[j] == spec_magic()[j],
        decreases 6 - i,
    {
        if bytes[i] != expected[i] {
            assert(bytes@.take(6)[i as int] != spec_magic()[i as int]);
            return false;
        }
        i = i + 1;
    }
    assert(bytes@.take(6) =~= spec_magic());
    true
}

impl Module {
    /// Reads the binary contents of an IL4IL module.
    pub fn read_from(bytes: &[u8]) -> (r: Result<Module, Error>)
        ensures
            match spec_read_module(bytes@) {
                Ok((m, _)) => r matches Ok(x) && x@ == m,
                Err((k, o)) => r matches Err(e) && e.kind == k && e.file_offset == o,
            },
    {
        let mut source = Source::new(bytes);
        if !starts_with_magic(bytes) {
            return Err(source.create_error(ErrorKind::InvalidMagic(InvalidMagicError)));
        }
        let ghost start = source;
        let _magic = source.read_bytes(6);
        source.check_offset();
        proof {
            lemma_advanced(start, source);
        }
        let format_version = SupportedFormat::read_from(&mut source)?;
        source.check_offset();
        proof {
            lemma_advanced(start, source);
        }
        let sections = parse_many_length_encoded::<Section>(&mut source)?;
        Ok(Module::with_format_version_and_sections(format_version, sections))
    }

    /// Writes the binary contents of the module to the destination.
    pub fn write_to(&self, destination: &mut Destination) -> (r: Result<(), EncodingError>)
        ensures
            spec_write_outcome(old(destination)@, final(destination)@, spec_write_module(self@), r),
    {
        let m = magic();
        destination.write_all(m.as_slice());
        let format = self.format_version().format();
        format.write_to(destination);
        let ghost head = spec_magic() + spec_write_format(format);
        assert(destination@ =~= old(destination)@ + head);
        let ghost middle = destination@;
        let result = LengthPrefixed(self.sections().as_slice()).write_to(destination);
        proof {
            if result.is_err() {
                lemma_prefix_concat(old(destination)@, head, destination@);
            } else {
                assert(destination@ =~= old(destination)@ + (head + spec_write_prefixed::<Section>(self@.sections).unwrap()));
            }
        }
        result
    }
}

/// Whether reading gives a module back after writing it: its format version is supported, and its sections are read back.
pub open spec fn spec_module_round_trips(m: ModuleView) -> bool {
    &&& spec_is_supported(m.format_version)
    &&& spec_all_round_trip::<Section>(m.sections)
}

/// Reading the bytes written for a module gives the module back.
pub proof fn lemma_module_round_trip(m: ModuleView)
    requires
        spec_module_round_trips(m),
        spec_write_module(m) is Some,
    ensures
        spec_read_module(spec_write_module(m).unwrap()) == Ok::<(ModuleView, nat), (ErrorKind, nat)>(
            (m, spec_write_module(m).unwrap().len()),
        ),
{
    let f = spec_write_format(m.format_version);
    let w = spec_write_prefixed::<Section>(m.sections).unwrap();
    let s = spec_write_module(m).unwrap();
    assert(s =~= spec_magic() + (f + w));
    assert(s.take(6) =~= spec_magic());
    assert(s.skip(6) =~= f + w);
    assert((f + w).len() >= 2);
    assert(s.skip(8) =~= w + Seq::<u8>::empty());
    lemma_prefixed_round_trip::<Section>(m.sections, Seq::<u8>::empty());
}

} // verus!
