//! Types to model version numbers in IL4IL modules.
use vstd::prelude::*;

verus! {

/// Represents an IL4IL binary format version number.
#[derive(Copy, Clone, Debug, PartialEq, Eq, Structural, Hash, PartialOrd, Ord)]
pub struct Format {
    /// The major version number, incremented when changes are made to the format that are incompatible with previous versions.
    pub major: u8,
    /// The minor version number, incremented when changes are made to the format that are compatible with previous versions.
    pub minor: u8,
}

/// Version numbers are ordered by major version, then by minor version.
pub open spec fn spec_format_le(a: Format, b: Format) -> bool {
    a.major < b.major || (a.major == b.major && a.minor <= b.minor)
}

/// The current format version, used by newly created modules.
pub open spec fn spec_current_format() -> Format {
    Format { major: 0, minor: 1 }
}

/// The minimum version that is supported, modules that use format versions lower than this cannot be read.
pub open spec fn spec_minimum_format() -> Format {
    spec_current_format()
}

/// Whether this version of the API can read and write modules with the format version.
pub open spec fn spec_is_supported(version: Format) -> bool {
    spec_format_le(spec_minimum_format(), version) && spec_format_le(version, spec_current_format())
}

impl View for Format {
    type V = Format;

    open spec fn view(&self) -> Format {
        *self
    }
}

/// The text of a format version: its major and minor numbers in decimal, separated by a dot.
pub open spec fn spec_format_text(f: Format) -> Seq<char> {
    crate::text::spec_decimal(f.major as nat) + seq!['.'] + crate::text::spec_decimal(f.minor as nat)
}

impl Format {
    /// Creates a new format version with specified the major and minor version numbers.
    pub fn new(major: u8, minor: u8) -> (r: Self)
        ensures
            r == (Format { major, minor }),
    {
        Self { major, minor }
    }

    /// Whether this version is less than or equal to `other`, comparing major version numbers first.
    pub fn is_at_most(&self, other: &Format) -> (r: bool)
        ensures
            r == spec_format_le(*self, *other),
    {
        self.major < other.major || (self.major == other.major && self.minor <= other.minor)
    }

    /// The textual representation of this version number, `major.minor`.
    pub fn to_text(&self) -> (r: String)
        ensures
            r@ == spec_format_text(*self),
    {
        let mut s = crate::text::decimal_string(self.major as u64);
        crate::text::push_char(&mut s, '.');
        crate::text::push_decimal(&mut s, self.minor as u64);
        s
    }
}

/// Error used when a format version is not supported.
#[derive(Copy, Clone, Debug, PartialEq, Eq, Structural)]
pub struct UnsupportedFormatError {
    version: Format,
}

impl UnsupportedFormatError {
    /// Gets the format version that was not supported.
    pub fn version(&self) -> (r: Format)
        ensures
            r == self.spec_version(),
    {
        self.version
    }

    /// The format version that was not supported, in specifications.
    pub closed spec fn spec_version(&self) -> Format {
        self.version
    }

    /// The message describing this error.
    pub fn message(&self) -> (r: String)
        ensures
            r@ == "format version "@ + spec_format_text(self.spec_version())
                + " is not supported, minimum supported is "@ + spec_format_text(spec_minimum_format()),
    {
        let mut s = crate::text::concat3("format version ", &self.version.to_text(), " is not supported, minimum supported is ");
        let minimum = SupportedFormat::minimum().format();
        crate::text::push_str(&mut s, &minimum.to_text());
        s
    }
}

/// Represents an IL4IL binary format version number that is supported by this version of the API.
#[derive(Copy, Clone, Debug, PartialEq, Eq, Structural, Hash, PartialOrd, Ord)]
pub struct SupportedFormat {
    version: Format,
}

impl View for SupportedFormat {
    type V = Format;

    closed spec fn view(&self) -> Format {
        self.version
    }
}

impl SupportedFormat {
    /// The text of the format version: its major and minor numbers, separated by a dot.
    pub fn to_text(&self) -> (r: String)
        ensures
            r@ == spec_format_text(self@),
    {
        self.format().to_text()
    }

    #[verifier::type_invariant]
    spec fn supported(&self) -> bool {
        spec_is_supported(self.version)
    }

    /// The current format version, used by newly created modules.
    pub fn current() -> (r: Self)
        ensures
            r@ == spec_current_format(),
    {
        SupportedFormat { version: Format { major: 0, minor: 1 } }
    }

    /// The minimum version that is supported, modules that use format versions lower than this cannot be read.
    pub fn minimum() -> (r: Self)
        ensures
            r@ == spec_minimum_format(),
    {
        Self::current()
    }

    /// Gets the underlying format version.
    pub fn format(self) -> (r: Format)
        ensures
            r == self@,
            spec_is_supported(r),
    {
        proof {
            use_type_invariant(&self);
        }
        self.version
    }

    /// Attempts to create a format version number, returning `Err` if the version is not supported.
    pub fn new(version: Format) -> (r: Result<Self, UnsupportedFormatError>)
        ensures
            spec_is_supported(version) ==> (r matches Ok(f) && f@ == version),
            !spec_is_supported(version) ==> (r matches Err(e) && e.spec_version() == version),
    {
        let minimum = Format { major: 0, minor: 1 };
        let current = Format { major: 0, minor: 1 };
        if minimum.is_at_most(&version) && version.is_at_most(&current) {
            Ok(Self { version })
        } else {
            Err(UnsupportedFormatError { version })
        }
    }
}

} // verus!
