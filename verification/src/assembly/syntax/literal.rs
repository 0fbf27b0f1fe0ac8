//! Literals in the source text.
use vstd::prelude::*;

verus! {

/// The digits without the digit separators (`_`).
pub open spec fn spec_digits(s: Seq<char>) -> Seq<char> {
    s.filter(|c: char| c != '_')
}

/// A literal integer: its digits as written, and the character of its base, if any (as in `0x`).
#[derive(Clone, Debug, Eq, PartialEq)]
pub struct Integer {
    digits: std::string::String,
    base: Option<char>,
}

impl Integer {
    /// The digits as written, in specifications.
    pub closed spec fn spec_original_digits(&self) -> Seq<char> {
        self.digits@
    }

    /// The character of the base, in specifications.
    pub closed spec fn spec_base(&self) -> Option<char> {
        self.base
    }

    /// Creates a literal integer.
    pub fn new(base: Option<char>, digits: std::string::String) -> (r: Self)
        ensures
            r.spec_base() == base,
            r.spec_original_digits() == digits@,
    {
        Integer { digits, base }
    }

    /// Returns the digits as they were in the source text, including any digit separators (`_`).
    pub fn original_digits(&self) -> (r: &std::string::String)
        ensures
            r@ == self.spec_original_digits(),
    {
        &self.digits
    }

    /// Returns the digits of the integer literal, omitting any digit separators (`_`).
    pub fn iter_digits(&self) -> (r: Vec<char>)
        ensures
            r@ == spec_digits(self.spec_original_digits()),
    {
        let chars = crate::text::chars_of(self.digits.as_str());
        let mut r: Vec<char> = Vec::new();
        let mut i: usize = 0;
        while i < chars.len()
            invariant
                i <= chars@.len(),
                chars@ == self.spec_original_digits(),
                r@ == spec_digits(chars@.take(i as int)),
            decreases chars@.len() - i,
        {
            let c = chars[i];
            if c != '_' {
                r.push(c);
            }
            proof {
                let f = |c: char| c != '_';
                assert(chars@.take(i + 1) =~= chars@.take(i as int).push(c));
                chars@.take(i as int).lemma_filter_push(c, f);
            }
            i = i + 1;
        }
        assert(chars@.take(i as int) =~= chars@);
        r
    }

    /// The character of the base, if the literal has one.
    pub fn base(&self) -> (r: Option<char>)
        ensures
            r == self.spec_base(),
    {
        self.base
    }

    /// The literal as written in source text: `0` and the base character where there is one, then the digits.
    pub fn to_text(&self) -> (r: std::string::String)
        ensures
            r@ == match self.spec_base() {
                Some(c) => seq!['0', c] + self.spec_original_digits(),
                None => self.spec_original_digits(),
            },
    {
        let mut r = std::string::String::new();
        match self.base {
            Some(c) => {
                crate::text::push_char(&mut r, '0');
                crate::text::push_char(&mut r, c);
            },
            None => {},
        }
        crate::text::push_str(&mut r, self.digits.as_str());
        assert(r@ =~= match self.spec_base() {
            Some(c) => seq!['0', c] + self.spec_original_digits(),
            None => self.spec_original_digits(),
        });
        r
    }
}

/// A literal string.
#[derive(Debug, Eq, PartialEq)]
pub struct String(std::string::String);

impl View for String {
    type V = Seq<char>;

    closed spec fn view(&self) -> Seq<char> {
        self.0@
    }
}

impl String {
    /// Creates a literal string with the given contents.
    pub fn new(contents: std::string::String) -> (r: Self)
        ensures
            r@ == contents@,
    {
        String(contents)
    }

    /// The contents of the literal string.
    pub fn contents(&self) -> (r: &std::string::String)
        ensures
            r@ == self@,
    {
        &self.0
    }

    /// Returns the contents of the literal string.
    pub fn into_contents(self) -> (r: std::string::String)
        ensures
            r@ == self@,
    {
        self.0
    }
}


/// Whether a character is printed as it is inside a quoted string: a graphic ASCII character or a space.
pub open spec fn spec_plain_char(c: char) -> bool {
    ('!' <= c && c <= '~') || c == ' '
}

/// How a character is written inside a quoted string: a backslash before a line feed, a tab, a carriage return, a
/// backslash or a double quote; graphic ASCII characters and spaces as they are; any other character as `\u` followed
/// by its code in hexadecimal, prefixed with `0x` and with at least two digits.
pub open spec fn spec_escaped_char(c: char) -> Seq<char> {
    if c == '\n' || c == '\t' || c == '\r' || c == '\\' || c == '"' {
        seq!['\\', c]
    } else if spec_plain_char(c) {
        seq![c]
    } else if (c as u32) < 16 {
        seq!['\\', 'u', '0', 'x', '0'] + crate::text::spec_hex(c as u32 as nat)
    } else {
        seq!['\\', 'u', '0', 'x'] + crate::text::spec_hex(c as u32 as nat)
    }
}

/// The characters of a string, each written as inside a quoted string.
pub open spec fn spec_escaped(s: Seq<char>) -> Seq<char>
    decreases s.len(),
{
    if s.len() == 0 {
        Seq::empty()
    } else {
        spec_escaped(s.drop_last()) + spec_escaped_char(s.last())
    }
}

/// A string between double quotes, with its characters escaped.
pub open spec fn spec_quoted(s: Seq<char>) -> Seq<char> {
    seq!['"'] + spec_escaped(s) + seq!['"']
}

/// Appends a character, written as inside a quoted string.
fn push_escaped_char(s: &mut std::string::String, c: char)
    ensures
        final(s)@ == old(s)@ + spec_escaped_char(c),
{
    if c == '\n' || c == '\t' || c == '\r' || c == '\\' || c == '"' {
        crate::text::push_char(s, '\\');
        crate::text::push_char(s, c);
    } else if ('!' <= c && c <= '~') || c == ' ' {
        crate::text::push_char(s, c);
    } else {
        crate::text::push_str(s, "\\u0x");
        let code = c as u32;
        if code < 16 {
            crate::text::push_char(s, '0');
        }
        crate::text::push_hex(s, code as u64);
        proof {
            reveal_strlit("\\u0x");
        }
    }
    assert(s@ =~= old(s)@ + spec_escaped_char(c));
}

impl String {
    /// The literal as written in source text: its contents between double quotes, with its characters escaped.
    pub fn to_text(&self) -> (r: std::string::String)
        ensures
            r@ == spec_quoted(self@),
    {
        let mut r = std::string::String::new();
        crate::text::push_char(&mut r, '"');
        let chars = crate::text::chars_of(self.0.as_str());
        let mut i: usize = 0;
        while i < chars.len()
            invariant
                i <= chars@.len(),
                chars@ == self@,
                r@ == seq!['"'] + spec_escaped(chars@.take(i as int)),
            decreases chars@.len() - i,
        {
            push_escaped_char(&mut r, chars[i]);
            assert(chars@.take(i + 1).drop_last() =~= chars@.take(i as int));
            i = i + 1;
        }
        assert(chars@.take(i as int) =~= chars@);
        crate::text::push_char(&mut r, '"');
        r
    }
}
} // verus!
