//! Module for manipulating IL4IL identifier strings.
//!
//! For more information, see the documentation for [`Id`].
//!
//! [`Id`] is to [`Identifier`] as [`str`] is to [`String`].
use vstd::prelude::*;
use vstd::utf8::encode_utf8;
use vstd::string::StringExecFns;

verus! {

/// The error type used to indicate that a string is not a valid IL4IL identifier.
#[derive(Clone, Copy, Debug, PartialEq, Eq, Structural)]
pub enum InvalidError {
    /// Identifiers cannot be empty.
    Empty,
    /// Identifiers cannot contain null bytes.
    ContainsNull,
}

impl InvalidError {
    /// The message describing this error.
    pub fn message(&self) -> (r: &'static str)
        ensures
            r@ == match self {
                InvalidError::Empty => "identifiers cannot be empty"@,
                InvalidError::ContainsNull => "identifiers cannot contain null bytes"@,
            },
    {
        match self {
            InvalidError::Empty => "identifiers cannot be empty",
            InvalidError::ContainsNull => "identifiers cannot contain null bytes",
        }
    }
}

/// The error type used when parsing a IL4IL identifier from a sequence of bytes fails.
#[derive(Clone, Copy, Debug, PartialEq, Eq, Structural)]
pub enum ParseError {
    /// The bytes are valid UTF-8, but not a valid identifier.
    InvalidIdentifier(InvalidError),
    /// The bytes are not valid UTF-8.
    InvalidSequence,
}

/// Whether a string is a valid identifier: it is not empty and its UTF-8 encoding has no `NUL` byte.
pub open spec fn spec_is_identifier(s: Seq<char>) -> bool {
    s.len() > 0 && !encode_utf8(s).contains(0u8)
}

/// The outcome of validating a string as an identifier.
pub open spec fn spec_validate(s: Seq<char>) -> Result<(), InvalidError> {
    if s.len() == 0 {
        Err(InvalidError::Empty)
    } else if encode_utf8(s).contains(0u8) {
        Err(InvalidError::ContainsNull)
    } else {
        Ok(())
    }
}

/// The outcome of decoding bytes as an identifier.
pub open spec fn spec_from_utf8(bytes: Seq<u8>) -> Result<Seq<char>, ParseError> {
    if !vstd::utf8::valid_utf8(bytes) {
        Err(ParseError::InvalidSequence)
    } else {
        let s = vstd::utf8::decode_utf8(bytes);
        match spec_validate(s) {
            Ok(_) => Ok(s),
            Err(e) => Err(ParseError::InvalidIdentifier(e)),
        }
    }
}

/// The UTF-8 encoding of a concatenation is the concatenation of the encodings.
pub proof fn lemma_encode_utf8_concat(a: Seq<char>, b: Seq<char>)
    ensures
        encode_utf8(a + b) == encode_utf8(a) + encode_utf8(b),
    decreases a.len(),
{
    if a.len() == 0 {
        assert(a + b =~= b);
        assert(encode_utf8(a) =~= Seq::<u8>::empty());
        assert(encode_utf8(a) + encode_utf8(b) =~= encode_utf8(b));
    } else {
        lemma_encode_utf8_concat(a.drop_first(), b);
        assert((a + b).drop_first() =~= a.drop_first() + b);
        assert((a + b)[0] == a[0]);
        assert(encode_utf8(a + b) =~= encode_utf8(a) + encode_utf8(b));
    }
}

/// Appending one identifier to another always gives an identifier.
pub proof fn lemma_concat_is_identifier(a: Seq<char>, b: Seq<char>)
    requires
        spec_is_identifier(a),
        spec_is_identifier(b),
    ensures
        spec_is_identifier(a + b),
{
    lemma_encode_utf8_concat(a, b);
    let ea = encode_utf8(a);
    let eb = encode_utf8(b);
    assert forall|i: int| 0 <= i < (ea + eb).len() implies (ea + eb)[i] != 0u8 by {
        if i < ea.len() {
            assert((ea + eb)[i] == ea[i]);
            assert(!ea.contains(0u8));
        } else {
            assert((ea + eb)[i] == eb[i - ea.len()]);
            assert(!eb.contains(0u8));
        }
    }
}

/// Decodes bytes as UTF-8 text, through [`std::str::from_utf8`], giving `None` when they are not valid UTF-8.
#[verifier::external_body]
fn str_from_utf8(bytes: &[u8]) -> (r: Option<&str>)
    ensures
        r is Some <==> vstd::utf8::valid_utf8(bytes@),
        r matches Some(s) ==> encode_utf8(s@) == bytes@,
{
    std::str::from_utf8(bytes).ok()
}

/// Whether any of the bytes is zero.
fn contains_zero(bytes: &[u8]) -> (r: bool)
    ensures
        r == bytes@.contains(0u8),
{
    let mut i: usize = 0;
    while i < bytes.len()
        invariant
            i <= bytes.len(),
            forall|j: int| 0 <= j < i ==> bytes@[j] != 0u8,
        decreases bytes.len() - i,
    {
        if bytes[i] == 0 {
            return true;
        }
        i = i + 1;
    }
    false
}

fn validate(identifier: &str) -> (r: Result<(), InvalidError>)
    ensures
        r == spec_validate(identifier@),
{
    if identifier.is_empty() {
        Err(InvalidError::Empty)
    } else if contains_zero(identifier.as_bytes()) {
        Err(InvalidError::ContainsNull)
    } else {
        Ok(())
    }
}

/// Represents a borrowed IL4IL identifier string, which is a valid UTF-8 string that cannot be empty or contain any `NUL` bytes.
///
/// The requirements placed on identifiers ensures conversions to other formats are easier. For example, LLVM uses null terminated
/// strings which IL4IL strings would be compatible with.
///
/// Additionally, [`Id`] does not provide methods to mutate or manipulate identifier strings, in order to ensure that its
/// invariants hold.
#[derive(Clone, Copy, Debug, PartialEq, Eq, Hash)]
pub struct Id<'a> {
    contents: &'a str,
}

impl<'a> View for Id<'a> {
    type V = Seq<char>;

    closed spec fn view(&self) -> Seq<char> {
        self.contents@
    }
}

impl<'a> Id<'a> {
    #[verifier::type_invariant]
    spec fn valid(&self) -> bool {
        spec_is_identifier(self.contents@)
    }

    /// Returns the contents of the identifier.
    pub fn as_str(&self) -> (r: &'a str)
        ensures
            r@ == self@,
            spec_is_identifier(r@),
    {
        proof {
            use_type_invariant(self);
        }
        self.contents
    }

    /// Creates a reference to an identifier string that is known to be valid: not empty, and without `NUL` characters.
    pub fn from_str_unchecked(identifier: &'a str) -> (r: Id<'a>)
        requires
            spec_is_identifier(identifier@),
        ensures
            r@ == identifier@,
    {
        Id { contents: identifier }
    }

    /// Copies the contents of the identifier string into an owned string.
    pub fn into_boxed_str(self) -> (r: String)
        ensures
            r@ == self@,
    {
        String::from_str(self.contents)
    }

    /// Copies the contents of the identifier string into a heap allocation.
    pub fn to_identifier(&self) -> (r: Identifier)
        ensures
            r@ == self@,
    {
        proof {
            use_type_invariant(self);
        }
        Identifier { contents: String::from_str(self.contents) }
    }

    /// Attempts to create a reference to an identifier string.
    ///
    /// If the string is empty or contains a `NUL` character, then an error is returned.
    pub fn new(identifier: &'a str) -> (r: Result<Id<'a>, InvalidError>)
        ensures
            match spec_validate(identifier@) {
                Ok(_) => r matches Ok(id) && id@ == identifier@,
                Err(e) => r == Err::<Id<'a>, InvalidError>(e),
            },
    {
        match validate(identifier) {
            Ok(_) => Ok(Id { contents: identifier }),
            Err(e) => Err(e),
        }
    }

    /// Converts a slice of bytes into a IL4IL identifier string.
    pub fn from_utf8(bytes: &'a [u8]) -> (r: Result<Id<'a>, ParseError>)
        ensures
            match spec_from_utf8(bytes@) {
                Ok(s) => r matches Ok(id) && id@ == s,
                Err(e) => r == Err::<Id<'a>, ParseError>(e),
            },
    {
        match str_from_utf8(bytes) {
            None => Err(ParseError::InvalidSequence),
            Some(s) => {
                proof {
                    vstd::utf8::encode_utf8_decode_utf8(s@);
                }
                match Self::new(s) {
                    Ok(id) => Ok(id),
                    Err(e) => Err(ParseError::InvalidIdentifier(e)),
                }
            },
        }
    }

    /// Turns an identifier string into an owned [`Identifier`].
    pub fn into_identifier(self) -> (r: Identifier)
        ensures
            r@ == self@,
    {
        self.to_identifier()
    }
}

/// Owned form of a IL4IL identifier string.
///
/// For more information, see the documentation for [`Id`].
#[derive(Debug, PartialEq, Eq, Hash, PartialOrd, Ord)]
pub struct Identifier {
    contents: String,
}

impl Clone for Identifier {
    fn clone(&self) -> (r: Self)
        ensures
            r@ == self@,
    {
        proof {
            use_type_invariant(self);
        }
        Identifier { contents: self.contents.clone() }
    }
}

impl View for Identifier {
    type V = Seq<char>;

    closed spec fn view(&self) -> Seq<char> {
        self.contents@
    }
}

impl Identifier {
    #[verifier::type_invariant]
    spec fn valid(&self) -> bool {
        spec_is_identifier(self.contents@)
    }

    /// Every identifier is valid.
    pub fn validity(&self)
        ensures
            spec_is_identifier(self@),
    {
        proof {
            use_type_invariant(self);
        }
    }

    /// Returns the contents of this identifier string.
    pub fn as_str(&self) -> (r: &str)
        ensures
            r@ == self@,
            spec_is_identifier(r@),
    {
        proof {
            use_type_invariant(self);
        }
        self.contents.as_str()
    }

    /// Returns a reference to the underlying [`String`].
    pub fn as_string(&self) -> (r: &String)
        ensures
            r@ == self@,
    {
        &self.contents
    }

    /// Returns a borrowed version of this identifier string.
    pub fn as_id(&self) -> (r: Id<'_>)
        ensures
            r@ == self@,
    {
        proof {
            use_type_invariant(self);
        }
        Id { contents: self.contents.as_str() }
    }

    /// Creates an owned version of an identifier string.
    pub fn from_id(identifier: Id<'_>) -> (r: Self)
        ensures
            r@ == identifier@,
    {
        identifier.to_identifier()
    }

    /// Converts a borrowed identifier string into an [`Identifier`].
    pub fn from_boxed_id(identifier: Id<'_>) -> (r: Self)
        ensures
            r@ == identifier@,
    {
        identifier.into_identifier()
    }

    /// Converts a string that is known to be a valid identifier: not empty, and without `NUL` characters.
    pub fn from_string_unchecked(identifier: String) -> (r: Self)
        requires
            spec_is_identifier(identifier@),
        ensures
            r@ == identifier@,
    {
        Identifier { contents: identifier }
    }

    /// Attempts to convert a [`String`] into an identifier.
    ///
    /// If the string is empty or contains a `NUL` character, then an error is returned.
    pub fn from_string(identifier: String) -> (r: Result<Self, InvalidError>)
        ensures
            match spec_validate(identifier@) {
                Ok(_) => r matches Ok(id) && id@ == identifier@,
                Err(e) => r == Err::<Identifier, InvalidError>(e),
            },
    {
        match validate(identifier.as_str()) {
            Ok(_) => Ok(Identifier { contents: identifier }),
            Err(e) => Err(e),
        }
    }

    /// Converts a string into an identifier.
    ///
    /// If the string is empty or contains a `NUL` character, then an error is returned.
    pub fn from_boxed_str(identifier: &str) -> (r: Result<Self, InvalidError>)
        ensures
            match spec_validate(identifier@) {
                Ok(_) => r matches Ok(id) && id@ == identifier@,
                Err(e) => r == Err::<Identifier, InvalidError>(e),
            },
    {
        Self::from_string(String::from_str(identifier))
    }

    /// Converts a sequence of bytes into an identifier.
    pub fn from_utf8(bytes: &[u8]) -> (r: Result<Self, ParseError>)
        ensures
            match spec_from_utf8(bytes@) {
                Ok(s) => r matches Ok(id) && id@ == s,
                Err(e) => r == Err::<Identifier, ParseError>(e),
            },
    {
        match Id::from_utf8(bytes) {
            Ok(id) => Ok(id.to_identifier()),
            Err(e) => Err(e),
        }
    }

    /// Appends an identifier string to the end of this identifier.
    pub fn push_id(&mut self, identifier: Id<'_>)
        ensures
            final(self)@ == old(self)@ + identifier@,
    {
        proof {
            use_type_invariant(&*self);
            use_type_invariant(&identifier);
            lemma_concat_is_identifier(self.contents@, identifier.contents@);
        }
        let mut contents = self.contents.clone();
        contents.append(identifier.contents);
        self.contents = contents;
    }

    /// Returns the underlying [`String`].
    pub fn into_string(self) -> (r: String)
        ensures
            r@ == self@,
    {
        self.contents
    }

    /// The UTF-8 bytes of this identifier.
    pub fn as_bytes(&self) -> (r: &[u8])
        ensures
            r@ == encode_utf8(self@),
    {
        self.contents.as_str().as_bytes()
    }
}

} // verus!
