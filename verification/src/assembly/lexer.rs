//! The IL4IL assembly lexer.
//!
//! The lexer turns text into tokens, each with the range of byte offsets that it spans, and records the byte offsets of
//! the lines of the text.
use vstd::prelude::*;
use vstd::utf8::encode_utf8;
use vstd::utf8::encode_scalar;
use std::ops::Range;
use crate::assembly::location::Location;
use crate::assembly::location::Number;

verus! {

/// Whether a character is whitespace: whether it has the Unicode `White_Space` property, which [`char::is_whitespace`]
/// tests.
pub open spec fn spec_whitespace(c: char) -> bool {
    let x = c as u32;
    ||| 0x09 <= x <= 0x0D
    ||| x == 0x20
    ||| x == 0x85
    ||| x == 0xA0
    ||| x == 0x1680
    ||| 0x2000 <= x <= 0x200A
    ||| x == 0x2028
    ||| x == 0x2029
    ||| x == 0x202F
    ||| x == 0x205F
    ||| x == 0x3000
}

/// Whether a character is an ASCII letter.
pub open spec fn spec_ascii_letter(c: char) -> bool {
    ('a' <= c && c <= 'z') || ('A' <= c && c <= 'Z')
}

/// Whether a character is an ASCII digit.
pub open spec fn spec_ascii_digit(c: char) -> bool {
    '0' <= c && c <= '9'
}

/// Names whether a character beyond ASCII is alphabetic, as [`char::is_alphabetic`] decides from the Unicode
/// `Alphabetic` property.
pub uninterp spec fn unicode_alphabetic(c: char) -> bool;

/// Names whether a character beyond ASCII is alphabetic or numeric, as [`char::is_alphanumeric`] decides from Unicode
/// properties.
pub uninterp spec fn unicode_alphanumeric(c: char) -> bool;

/// Whether a character is alphabetic: within ASCII exactly the letters, beyond it as the Unicode `Alphabetic` property
/// decides.
pub open spec fn spec_alphabetic(c: char) -> bool {
    if (c as u32) < 0x80 {
        spec_ascii_letter(c)
    } else {
        unicode_alphabetic(c)
    }
}

/// Whether a character is alphabetic or numeric: within ASCII exactly the letters and digits, beyond it as the Unicode
/// properties decide.
pub open spec fn spec_alphanumeric(c: char) -> bool {
    if (c as u32) < 0x80 {
        spec_ascii_letter(c) || spec_ascii_digit(c)
    } else {
        unicode_alphanumeric(c)
    }
}

/// Whether the character is whitespace, that is one of the code points with the Unicode `White_Space` property, as
/// [`char::is_whitespace`] decides.
fn is_whitespace(c: char) -> (r: bool)
    ensures
        r == spec_whitespace(c),
{
    let x = c as u32;
    (0x09 <= x && x <= 0x0D) || x == 0x20 || x == 0x85 || x == 0xA0 || x == 0x1680 || (0x2000 <= x && x <= 0x200A)
        || x == 0x2028 || x == 0x2029 || x == 0x202F || x == 0x205F || x == 0x3000
}

/// Whether the character is alphabetic, through [`char::is_alphabetic`]. Within ASCII the `Alphabetic` property holds
/// of the letters alone; beyond ASCII the result is the one that [`unicode_alphabetic`] names, and nothing more is
/// stated of it.
#[verifier::external_body]
fn is_alphabetic(c: char) -> (r: bool)
    ensures
        r == spec_alphabetic(c),
        (c as u32) >= 0x80 ==> r == unicode_alphabetic(c),
{
    c.is_alphabetic()
}

/// Whether the character is alphabetic or numeric, through [`char::is_alphanumeric`], which holds where
/// [`char::is_alphabetic`] or [`char::is_numeric`] does. Within ASCII these are the letters and the digits; beyond
/// ASCII the result is the one that [`unicode_alphanumeric`] names, and nothing more is stated of it.
#[verifier::external_body]
fn is_alphanumeric(c: char) -> (r: bool)
    ensures
        r == spec_alphanumeric(c),
        (c as u32) >= 0x80 ==> r == unicode_alphanumeric(c),
{
    c.is_alphanumeric()
}

/// The number of bytes of the UTF-8 encoding of a character.
pub open spec fn spec_char_length(c: char) -> nat {
    encode_scalar(c as u32).len()
}

/// The number of bytes of the UTF-8 encoding of a character.
fn char_length(c: char) -> (r: usize)
    ensures
        r == spec_char_length(c),
        1 <= r <= 4,
{
    let v = c as u32;
    if v <= 0x7F {
        1
    } else if v <= 0x7FF {
        2
    } else if v <= 0xFFFF {
        proof {
            vstd::utf8::char_is_scalar(c);
        }
        3
    } else {
        4
    }
}

/// The byte offset of the character at position `i`.
pub open spec fn spec_offset(chars: Seq<char>, i: int) -> nat {
    encode_utf8(chars.take(i)).len()
}

/// The byte offset of a character is the offset of the previous one plus that character's length.
proof fn lemma_offset_step(chars: Seq<char>, i: int)
    requires
        0 <= i < chars.len(),
    ensures
        spec_offset(chars, i + 1) == spec_offset(chars, i) + spec_char_length(chars[i]),
        spec_offset(chars, i + 1) <= encode_utf8(chars).len(),
{
    crate::identifier::lemma_encode_utf8_concat(chars.take(i), seq![chars[i]]);
    assert(chars.take(i + 1) =~= chars.take(i) + seq![chars[i]]);
    assert(encode_utf8(seq![chars[i]]) =~= encode_scalar(chars[i] as u32)) by {
        reveal_with_fuel(encode_utf8, 2);
        assert(seq![chars[i]].drop_first() =~= Seq::<char>::empty());
    }
    crate::identifier::lemma_encode_utf8_concat(chars.take(i + 1), chars.skip(i + 1));
    assert(chars.take(i + 1) + chars.skip(i + 1) =~= chars);
}

/// The type of tokens used by the IL4IL assembler.
#[derive(Clone, Debug, Eq, PartialEq)]
pub enum Token {
    OpenBracket,
    CloseBracket,
    Semicolon,
    /// A directive, a dot followed by its name.
    Directive(String),
    /// A word made of letters and digits.
    Word(String),
    /// Characters that form no other token.
    Unknown(String),
}

/// A token, in specifications.
pub enum TokenView {
    OpenBracket,
    CloseBracket,
    Semicolon,
    Directive(Seq<char>),
    Word(Seq<char>),
    Unknown(Seq<char>),
}

impl View for Token {
    type V = TokenView;

    open spec fn view(&self) -> TokenView {
        match self {
            Token::OpenBracket => TokenView::OpenBracket,
            Token::CloseBracket => TokenView::CloseBracket,
            Token::Semicolon => TokenView::Semicolon,
            Token::Directive(s) => TokenView::Directive(s@),
            Token::Word(s) => TokenView::Word(s@),
            Token::Unknown(s) => TokenView::Unknown(s@),
        }
    }
}

/// The text of a token.
pub open spec fn spec_token_text(t: TokenView) -> Seq<char> {
    match t {
        TokenView::OpenBracket => seq!['{'],
        TokenView::CloseBracket => seq!['}'],
        TokenView::Semicolon => seq![';'],
        TokenView::Directive(name) => seq!['.'] + name,
        TokenView::Word(word) => word,
        TokenView::Unknown(contents) => contents,
    }
}

impl Token {
    /// The text of the token.
    pub fn to_text(&self) -> (r: String)
        ensures
            r@ == spec_token_text(self@),
    {
        let mut r = String::new();
        match self {
            Token::OpenBracket => crate::text::push_char(&mut r, '{'),
            Token::CloseBracket => crate::text::push_char(&mut r, '}'),
            Token::Semicolon => crate::text::push_char(&mut r, ';'),
            Token::Directive(name) => {
                crate::text::push_char(&mut r, '.');
                crate::text::push_str(&mut r, name.as_str());
            },
            Token::Word(word) => crate::text::push_str(&mut r, word.as_str()),
            Token::Unknown(contents) => crate::text::push_str(&mut r, contents.as_str()),
        }
        assert(r@ =~= spec_token_text(self@));
        r
    }

    /// Clones the token.
    pub fn clone_token(&self) -> (r: Token)
        ensures
            r@ == self@,
    {
        match self {
            Token::OpenBracket => Token::OpenBracket,
            Token::CloseBracket => Token::CloseBracket,
            Token::Semicolon => Token::Semicolon,
            Token::Directive(s) => Token::Directive(s.clone()),
            Token::Word(s) => Token::Word(s.clone()),
            Token::Unknown(s) => Token::Unknown(s.clone()),
        }
    }
}

/// A line of source code, in specifications: the byte offsets of its start and end, and its line number.
pub struct LineView {
    pub start: nat,
    pub end: nat,
    pub number: nat,
}

/// Represents a line of source code.
#[derive(Debug, Eq, PartialEq)]
pub struct Line {
    bytes: Range<usize>,
    line: Number,
}

impl View for Line {
    type V = LineView;

    closed spec fn view(&self) -> LineView {
        LineView { start: self.bytes.start as nat, end: self.bytes.end as nat, number: self.line@ }
    }
}

impl Clone for Line {
    fn clone(&self) -> (r: Self)
        ensures
            r@ == self@,
    {
        Line { bytes: self.bytes.start..self.bytes.end, line: self.line }
    }
}

impl Line {
    /// Creates a line from its byte offsets and its line number.
    pub fn new(bytes: Range<usize>, line: Number) -> (r: Self)
        ensures
            r@ == (LineView { start: bytes.start as nat, end: bytes.end as nat, number: line@ }),
    {
        Line { bytes, line }
    }

    /// The byte offsets marking the start and end of this line.
    ///
    /// The start offset is either `0` referring to the start of the file, or refers to the first character after a
    /// line break.
    pub fn byte_offsets(&self) -> (r: &Range<usize>)
        ensures
            r.start == self@.start,
            r.end == self@.end,
    {
        &self.bytes
    }

    /// The number of the line.
    pub fn line_number(&self) -> (r: Number)
        ensures
            r@ == self@.number,
    {
        self.line
    }
}

/// Maps byte offsets to line and column number pairs, in specifications.
pub struct OffsetsView {
    pub byte_length: nat,
    pub lines: Seq<LineView>,
}

/// Maps byte offsets to line and column number pairs.
#[derive(Debug)]
pub struct Offsets {
    byte_length: usize,
    lines: Vec<Line>,
}

impl View for Offsets {
    type V = OffsetsView;

    closed spec fn view(&self) -> OffsetsView {
        OffsetsView { byte_length: self.byte_length as nat, lines: crate::binary::parser::spec_views(self.lines@) }
    }
}

/// The position of the last line, before position `end`, that starts at or before the byte offset.
pub open spec fn spec_line_of(lines: Seq<LineView>, byte_offset: nat, end: int) -> Option<nat>
    decreases end,
{
    if end <= 0 || end > lines.len() {
        None
    } else if lines[end - 1].start <= byte_offset {
        Some((end - 1) as nat)
    } else {
        spec_line_of(lines, byte_offset, end - 1)
    }
}

/// The line and column of a byte offset: the line is the last one that starts at or before it, and the column counts
/// bytes from the start of that line, starting at one. Before every line, the offset is on the first line.
pub open spec fn spec_location(lines: Seq<LineView>, byte_offset: nat) -> (nat, nat) {
    match spec_line_of(lines, byte_offset, lines.len() as int) {
        Some(i) => (lines[i as int].number, (byte_offset - lines[i as int].start + 1) as nat),
        None => (1, byte_offset + 1),
    }
}

impl Offsets {
    /// Returns the length, in bytes, of the original input string.
    pub fn byte_length(&self) -> (r: usize)
        ensures
            r == self@.byte_length,
    {
        self.byte_length
    }

    /// Returns the range of byte offsets over the original input string.
    pub fn offsets(&self) -> (r: Range<usize>)
        ensures
            r.start == 0,
            r.end == self@.byte_length,
    {
        0..self.byte_length
    }

    /// The lines of the input.
    pub fn lines(&self) -> (r: &[Line])
        ensures
            crate::binary::parser::spec_views(r@) == self@.lines,
    {
        self.lines.as_slice()
    }

    /// Gets a line and column number corresponding to a byte offset.
    pub fn get_location(&self, byte_offset: usize) -> (r: Location)
        requires
            byte_offset < usize::MAX,
        ensures
            (r.line@, r.column@) == spec_location(self@.lines, byte_offset as nat),
    {
        let ghost lines = self@.lines;
        let mut end = self.lines.len();
        while end > 0
            invariant
                end <= self.lines@.len(),
                byte_offset < usize::MAX,
                lines == self@.lines,
                spec_line_of(lines, byte_offset as nat, lines.len() as int) == spec_line_of(
                    lines,
                    byte_offset as nat,
                    end as int,
                ),
            decreases end,
        {
            let line = &self.lines[end - 1];
            assert(lines[end - 1] == line@);
            if line.bytes.start <= byte_offset {
                let number = line.line;
                let column = byte_offset - line.bytes.start + 1;
                return Location::new(number, Number::new(column).unwrap());
            }
            end = end - 1;
        }
        Location::new(Number::start(), Number::new(byte_offset + 1).unwrap())
    }

    /// Gets the locations of the start and end of a range of byte offsets.
    pub fn get_location_range(&self, byte_offsets: Range<usize>) -> (r: Range<Location>)
        requires
            byte_offsets.start < usize::MAX,
            byte_offsets.end < usize::MAX,
        ensures
            (r.start.line@, r.start.column@) == spec_location(self@.lines, byte_offsets.start as nat),
            (r.end.line@, r.end.column@) == spec_location(self@.lines, byte_offsets.end as nat),
    {
        let start = self.get_location(byte_offsets.start);
        let end = self.get_location(byte_offsets.end);
        start..end
    }

    /// The location just past the end of the input.
    pub fn last_location(&self) -> (r: Location)
        requires
            self@.byte_length < usize::MAX,
        ensures
            (r.line@, r.column@) == spec_location(self@.lines, self@.byte_length),
    {
        self.get_location(self.byte_length)
    }

    /// The location of every byte offset of the input, in order.
    pub fn locations(&self) -> (r: Vec<Location>)
        requires
            self@.byte_length < usize::MAX,
        ensures
            r@.len() == self@.byte_length,
            forall|i: int| 0 <= i < r@.len() ==> (#[trigger] r@[i].line@, r@[i].column@) == spec_location(
                self@.lines,
                i as nat,
            ),
    {
        let mut r: Vec<Location> = Vec::new();
        let mut i: usize = 0;
        while i < self.byte_length
            invariant
                i <= self.byte_length,
                self@.byte_length < usize::MAX,
                r@.len() == i,
                forall|j: int| 0 <= j < r@.len() ==> (#[trigger] r@[j].line@, r@[j].column@) == spec_location(
                    self@.lines,
                    j as nat,
                ),
            decreases self.byte_length - i,
        {
            let location = self.get_location(i);
            let ghost before = r@;
            r.push(location);
            assert forall|j: int| 0 <= j < r@.len() implies (#[trigger] r@[j].line@, r@[j].column@)
                == spec_location(self@.lines, j as nat) by {
                if j < i {
                    assert(r@[j] == before[j]);
                    assert((before[j].line@, before[j].column@) == spec_location(self@.lines, j as nat));
                } else {
                    assert(r@[j] == location);
                }
            }
            i = i + 1;
        }
        r
    }
}

/// The state of the lexer, in specifications: the tokens so far, the offset where the next token starts, the characters
/// that form no other token yet with their byte length, the lines so far, the offset where the current line starts, and
/// its number.
pub struct LexState {
    pub tokens: Seq<(TokenView, nat, nat)>,
    pub previous: nat,
    pub unknown: Seq<char>,
    pub unknown_bytes: nat,
    pub lines: Seq<LineView>,
    pub line_start: nat,
    pub line_number: nat,
}

/// Whether every character is alphabetic or numeric.
pub open spec fn spec_all_alphanumeric(s: Seq<char>) -> bool {
    forall|i: int| 0 <= i < s.len() ==> #[trigger] spec_alphanumeric(s[i])
}

/// The token formed by characters that form no other token: a word when they are all letters and digits.
pub open spec fn spec_unknown_token(s: Seq<char>) -> TokenView {
    if spec_all_alphanumeric(s) {
        TokenView::Word(s)
    } else {
        TokenView::Unknown(s)
    }
}

/// Ends the characters that form no other token, as one token.
pub open spec fn spec_commit_unknown(st: LexState) -> LexState {
    if st.unknown.len() == 0 {
        st
    } else {
        LexState {
            tokens: st.tokens.push((spec_unknown_token(st.unknown), st.previous, st.previous + st.unknown_bytes)),
            previous: st.previous + st.unknown_bytes,
            unknown: Seq::empty(),
            unknown_bytes: 0,
            ..st
        }
    }
}

/// Adds a token that ends at the given offset.
pub open spec fn spec_commit(st: LexState, token: TokenView, end: nat) -> LexState {
    let s = spec_commit_unknown(st);
    LexState { tokens: s.tokens.push((token, s.previous, end)), previous: end, ..s }
}

/// Skips characters of the given byte length.
pub open spec fn spec_skip(st: LexState, length: nat) -> LexState {
    let s = spec_commit_unknown(st);
    LexState { previous: s.previous + length, ..s }
}

/// Adds a character to those that form no other token.
pub open spec fn spec_append_unknown(st: LexState, c: char) -> LexState {
    LexState { unknown: st.unknown.push(c), unknown_bytes: st.unknown_bytes + spec_char_length(c), ..st }
}

/// Ends the current line at the given offset, where a line break of the given number of bytes starts; the next line
/// starts after it.
pub open spec fn spec_end_line(st: LexState, offset: nat, break_length: nat) -> LexState {
    LexState {
        lines: st.lines.push(LineView { start: st.line_start, end: offset, number: st.line_number }),
        line_start: offset + break_length,
        line_number: st.line_number + 1,
        ..st
    }
}

/// The number of alphabetic characters from position `i` on, up to the first other character.
pub open spec fn spec_letters(chars: Seq<char>, i: int) -> nat
    decreases chars.len() - i,
{
    if 0 <= i < chars.len() && spec_alphabetic(chars[i]) {
        1 + spec_letters(chars, i + 1)
    } else {
        0
    }
}

/// Reads the token, or the line break, that starts at position `i`, giving the position after it and the new state.
///
/// A line break is `\r`, `\n`, or `\r\n`; the brackets and the semicolon are tokens of their own; a dot followed by
/// letters is a directive, and a dot followed by anything else is a character that forms no other token; whitespace
/// separates tokens; other characters gather into words or unknown tokens.
pub open spec fn spec_step(chars: Seq<char>, i: int, st: LexState) -> (int, LexState) {
    let c = chars[i];
    let after = spec_offset(chars, i + 1);
    if c == '\r' || c == '\n' {
        let skipped = spec_skip(st, 1);
        if c == '\r' && i + 1 < chars.len() && chars[i + 1] == '\n' {
            (i + 2, spec_end_line(spec_skip(skipped, 1), spec_offset(chars, i), 2))
        } else {
            (i + 1, spec_end_line(skipped, spec_offset(chars, i), 1))
        }
    } else if c == '{' {
        (i + 1, spec_commit(st, TokenView::OpenBracket, after))
    } else if c == '}' {
        (i + 1, spec_commit(st, TokenView::CloseBracket, after))
    } else if c == ';' {
        (i + 1, spec_commit(st, TokenView::Semicolon, after))
    } else if c == '.' {
        let k = spec_letters(chars, i + 1);
        if k > 0 {
            (
                i + 1 + k,
                spec_commit(
                    st,
                    TokenView::Directive(chars.subrange(i + 1, i + 1 + k)),
                    spec_offset(chars, i + 1 + k),
                ),
            )
        } else {
            (i + 1, spec_append_unknown(st, c))
        }
    } else if spec_whitespace(c) {
        (i + 1, spec_skip(st, spec_char_length(c)))
    } else {
        (i + 1, spec_append_unknown(st, c))
    }
}

/// Reads the tokens and line breaks from position `i` on.
pub open spec fn spec_lex(chars: Seq<char>, i: int, st: LexState) -> LexState
    decreases chars.len() - i,
{
    if i < 0 || i >= chars.len() {
        st
    } else {
        let (j, s) = spec_step(chars, i, st);
        if i < j <= chars.len() {
            spec_lex(chars, j, s)
        } else {
            s
        }
    }
}

/// The position of the first character after a byte order mark at the start, if there is one.
pub open spec fn spec_start(chars: Seq<char>) -> int {
    if chars.len() > 0 && chars[0] == '\u{FEFF}' {
        1
    } else {
        0
    }
}

/// The state before anything is read.
pub open spec fn spec_initial_state() -> LexState {
    LexState {
        tokens: Seq::empty(),
        previous: 0,
        unknown: Seq::empty(),
        unknown_bytes: 0,
        lines: Seq::empty(),
        line_start: 0,
        line_number: 1,
    }
}

/// The lines after reading everything: a last line is added when the text does not end with a line break, but only
/// when there is an earlier line.
pub open spec fn spec_finish_lines(st: LexState, byte_length: nat) -> Seq<LineView> {
    if st.lines.len() > 0 && st.line_start < byte_length {
        spec_end_line(st, byte_length, 1).lines
    } else {
        st.lines
    }
}

/// The output of the lexer, in specifications: the tokens with their byte offsets, and the offsets of the lines.
pub struct OutputView {
    pub tokens: Seq<(TokenView, nat, nat)>,
    pub offsets: OffsetsView,
}

/// What the lexer produces for the characters.
pub open spec fn spec_tokenize(chars: Seq<char>) -> OutputView {
    let st = spec_lex(chars, spec_start(chars), spec_initial_state());
    let byte_length = spec_offset(chars, chars.len() as int);
    OutputView {
        tokens: spec_commit_unknown(st).tokens,
        offsets: OffsetsView { byte_length, lines: spec_finish_lines(st, byte_length) },
    }
}

/// Whether every token starts no later than it ends, and ends no later than the bound.
pub open spec fn spec_tokens_before(tokens: Seq<(TokenView, nat, nat)>, bound: nat) -> bool {
    forall|k: int| #![trigger tokens[k]] 0 <= k < tokens.len() ==> tokens[k].1 <= tokens[k].2 <= bound
}

/// Whether the lines are numbered from one in order, the first starts at the start of the text, and each later one
/// starts just after the line break, of one or two bytes, that ends the previous one.
pub open spec fn spec_lines_consecutive(lines: Seq<LineView>) -> bool {
    &&& forall|k: int| #![trigger lines[k]] 0 <= k < lines.len() ==> lines[k].number == k + 1 && lines[k].start
        <= lines[k].end
    &&& lines.len() > 0 ==> lines[0].start == 0
    &&& forall|k: int, j: int| #![trigger lines[k], lines[j]] 0 <= k && j == k + 1 && j < lines.len() ==> lines[k].end
        + 1 <= lines[j].start <= lines[k].end + 2
}

/// Whether the lines read so far are consecutive, and the current line follows them.
pub open spec fn spec_lines_state(st: LexState) -> bool {
    &&& spec_lines_consecutive(st.lines)
    &&& st.line_number == st.lines.len() + 1
    &&& st.lines.len() == 0 ==> st.line_start == 0
    &&& st.lines.len() > 0 ==> st.lines.last().end + 1 <= st.line_start <= st.lines.last().end + 2
}

/// Whether the tokens come in the order of the text and do not overlap: each one ends before the next one starts.
pub open spec fn spec_tokens_ordered(tokens: Seq<(TokenView, nat, nat)>) -> bool {
    forall|k: int, j: int| #![trigger tokens[k], tokens[j]] 0 <= k < j < tokens.len() ==> tokens[k].2 <= tokens[j].1
}

/// Whether every token lies within the text, and the length of the text is below the largest byte offset.
pub open spec fn spec_tokens_within(output: OutputView) -> bool {
    &&& output.offsets.byte_length < usize::MAX
    &&& spec_tokens_before(output.tokens, output.offsets.byte_length)
}

/// The tokens and the line offsets of IL4IL assembly text.
#[derive(Debug)]
pub struct Output {
    tokens: Vec<(Token, Range<usize>)>,
    offsets: Offsets,
}

/// The view of a token with its byte offsets.
pub open spec fn spec_token_view(t: (Token, Range<usize>)) -> (TokenView, nat, nat) {
    (t.0@, t.1.start as nat, t.1.end as nat)
}

/// The views of tokens with their byte offsets.
pub open spec fn spec_token_views(tokens: Seq<(Token, Range<usize>)>) -> Seq<(TokenView, nat, nat)> {
    tokens.map_values(|t: (Token, Range<usize>)| spec_token_view(t))
}

impl View for Output {
    type V = OutputView;

    closed spec fn view(&self) -> OutputView {
        OutputView { tokens: spec_token_views(self.tokens@), offsets: self.offsets@ }
    }
}

impl Output {
    /// The tokens, each with the range of byte offsets that it spans.
    pub fn tokens(&self) -> (r: &[(Token, Range<usize>)])
        ensures
            spec_token_views(r@) == self@.tokens,
    {
        self.tokens.as_slice()
    }

    /// The offsets of the lines.
    pub fn offsets(&self) -> (r: &Offsets)
        ensures
            r@ == self@.offsets,
    {
        &self.offsets
    }

    /// Returns the tokens and the offsets of the lines.
    pub fn into_parts(self) -> (r: (Vec<(Token, Range<usize>)>, Offsets))
        ensures
            spec_token_views(r.0@) == self@.tokens,
            r.1@ == self@.offsets,
    {
        (self.tokens, self.offsets)
    }
}

/// The state of the lexer.
struct Lexer {
    tokens: Vec<(Token, Range<usize>)>,
    previous: usize,
    unknown: String,
    unknown_bytes: usize,
    unknown_is_word: bool,
    lines: Vec<Line>,
    line_start: usize,
    line_number: Number,
}

impl View for Lexer {
    type V = LexState;

    closed spec fn view(&self) -> LexState {
        LexState {
            tokens: spec_token_views(self.tokens@),
            previous: self.previous as nat,
            unknown: self.unknown@,
            unknown_bytes: self.unknown_bytes as nat,
            lines: crate::binary::parser::spec_views(self.lines@),
            line_start: self.line_start as nat,
            line_number: self.line_number@,
        }
    }
}

impl Lexer {
    closed spec fn well_formed(&self) -> bool {
        &&& self.unknown_is_word == spec_all_alphanumeric(self.unknown@)
        &&& (self.unknown@.len() == 0) == (self.unknown_bytes == 0)
        &&& spec_tokens_before(self@.tokens, self@.previous)
        &&& spec_tokens_ordered(self@.tokens)
    }

    fn new() -> (r: Self)
        ensures
            r@ == spec_initial_state(),
            r.well_formed(),
    {
        let r = Lexer {
            tokens: Vec::new(),
            previous: 0,
            unknown: String::new(),
            unknown_bytes: 0,
            unknown_is_word: true,
            lines: Vec::new(),
            line_start: 0,
            line_number: Number::start(),
        };
        assert(r@.tokens =~= Seq::<(TokenView, nat, nat)>::empty());
        assert(r@.lines =~= Seq::<LineView>::empty());
        r
    }

    fn commit_unknown(&mut self)
        requires
            old(self).well_formed(),
            old(self)@.previous + old(self)@.unknown_bytes <= usize::MAX,
        ensures
            final(self)@ == spec_commit_unknown(old(self)@),
            final(self).well_formed(),
    {
        if self.unknown_bytes > 0 {
            let start = self.previous;
            self.previous = self.previous + self.unknown_bytes;
            let mut contents = String::new();
            std::mem::swap(&mut contents, &mut self.unknown);
            let token = if self.unknown_is_word {
                Token::Word(contents)
            } else {
                Token::Unknown(contents)
            };
            let ghost before = self.tokens@;
            self.tokens.push((token, start..self.previous));
            self.unknown_bytes = 0;
            self.unknown_is_word = true;
            assert(spec_token_views(self.tokens@) =~= spec_token_views(before).push(
                (spec_unknown_token(old(self)@.unknown), start as nat, self.previous as nat),
            ));
            assert(self.unknown@ =~= Seq::<char>::empty());
        }
        proof {
            if old(self)@.unknown.len() == 0 {
                assert(old(self)@.unknown =~= Seq::<char>::empty());
            }
        }
    }

    fn commit(&mut self, token: Token, end: usize)
        requires
            old(self).well_formed(),
            old(self)@.previous + old(self)@.unknown_bytes <= end,
        ensures
            final(self)@ == spec_commit(old(self)@, token@, end as nat),
            final(self).well_formed(),
    {
        self.commit_unknown();
        let ghost before = self.tokens@;
        let start = self.previous;
        self.tokens.push((token, start..end));
        self.previous = end;
        assert(spec_token_views(self.tokens@) =~= spec_token_views(before).push((token@, start as nat, end as nat)));
    }

    fn skip(&mut self, length: usize)
        requires
            old(self).well_formed(),
            old(self)@.previous + old(self)@.unknown_bytes + length <= usize::MAX,
        ensures
            final(self)@ == spec_skip(old(self)@, length as nat),
            final(self).well_formed(),
    {
        self.commit_unknown();
        let ghost tokens = self@.tokens;
        let ghost before = self@.previous;
        self.previous = self.previous + length;
        assert(spec_tokens_before(tokens, self@.previous));
    }

    fn append_unknown(&mut self, c: char, length: usize)
        requires
            old(self).well_formed(),
            length == spec_char_length(c),
            1 <= length,
            old(self)@.unknown_bytes + length <= usize::MAX,
        ensures
            final(self)@ == spec_append_unknown(old(self)@, c),
            final(self).well_formed(),
    {
        let word = is_alphanumeric(c);
        crate::text::push_char(&mut self.unknown, c);
        self.unknown_bytes = self.unknown_bytes + length;
        self.unknown_is_word = self.unknown_is_word && word;
        assert(self.unknown_is_word == spec_all_alphanumeric(self.unknown@)) by {
            if self.unknown_is_word {
                assert forall|i: int| 0 <= i < self.unknown@.len() implies #[trigger] spec_alphanumeric(
                    self.unknown@[i],
                ) by {
                    if i < old(self).unknown@.len() {
                        assert(self.unknown@[i] == old(self).unknown@[i]);
                    }
                }
            } else if !word {
                assert(!spec_alphanumeric(self.unknown@[self.unknown@.len() - 1]));
            } else {
                let j = choose|j: int| 0 <= j < old(self).unknown@.len() && !spec_alphanumeric(old(self).unknown@[j]);
                assert(self.unknown@[j] == old(self).unknown@[j]);
            }
        }
    }

    fn end_line(&mut self, offset: usize, break_length: usize)
        requires
            offset < usize::MAX - 1,
            break_length == 1 || break_length == 2,
            old(self)@.line_number < usize::MAX,
            spec_lines_state(old(self)@),
            old(self)@.line_start <= offset,
        ensures
            final(self)@ == spec_end_line(old(self)@, offset as nat, break_length as nat),
            final(self).well_formed() == old(self).well_formed(),
            spec_lines_state(final(self)@),
    {
        let ghost before = self.lines@;
        self.lines.push(Line::new(self.line_start..offset, self.line_number));
        self.line_start = offset + break_length;
        self.line_number.increment();
        assert(crate::binary::parser::spec_views(self.lines@) =~= crate::binary::parser::spec_views(before).push(
            LineView { start: old(self)@.line_start, end: offset as nat, number: old(self)@.line_number },
        ));
    }
}


/// Every character takes at least one byte, so the byte offset of a position is at least the position, and at most the
/// length of the whole encoding.
proof fn lemma_offset_bounds(chars: Seq<char>, i: int)
    requires
        0 <= i <= chars.len(),
    ensures
        i <= spec_offset(chars, i) <= encode_utf8(chars).len(),
    decreases i,
{
    if i > 0 {
        lemma_offset_bounds(chars, i - 1);
        lemma_offset_step(chars, i - 1);
    }
}

/// The byte offset of the start is zero.
proof fn lemma_offset_zero(chars: Seq<char>)
    ensures
        spec_offset(chars, 0) == 0,
{
    assert(chars.take(0) =~= Seq::<char>::empty());
}

/// Reads the alphabetic characters from position `from` on, giving them with the position and the byte offset after
/// them.
fn read_letters(chars: &Vec<char>, from: usize, offset: usize) -> (r: (String, usize, usize))
    requires
        from <= chars@.len(),
        offset == spec_offset(chars@, from as int),
        encode_utf8(chars@).len() <= usize::MAX,
    ensures
        from <= r.1 <= chars@.len(),
        offset <= r.2,
        r.1 == from + spec_letters(chars@, from as int),
        r.0@ == chars@.subrange(from as int, r.1 as int),
        r.2 == spec_offset(chars@, r.1 as int),
{
    let mut name = String::new();
    let mut j: usize = from;
    let mut end: usize = offset;
    while j < chars.len() && is_alphabetic(chars[j])
        invariant
            from <= j <= chars@.len(),
            offset <= end,
            end == spec_offset(chars@, j as int),
            name@ == chars@.subrange(from as int, j as int),
            spec_letters(chars@, from as int) == (j - from) + spec_letters(chars@, j as int),
            encode_utf8(chars@).len() <= usize::MAX,
        decreases chars@.len() - j,
    {
        proof {
            lemma_offset_step(chars@, j as int);
        }
        let c = chars[j];
        crate::text::push_char(&mut name, c);
        end = end + char_length(c);
        j = j + 1;
        assert(name@ =~= chars@.subrange(from as int, j as int));
    }
    assert(spec_letters(chars@, j as int) == 0);
    (name, j, end)
}

impl Lexer {
    /// Reads the token, or the line break, at position `i`, whose byte offset is `offset`; gives the position and the
    /// byte offset after it.
    #[verifier::spinoff_prover]
    fn step(&mut self, chars: &Vec<char>, i: usize, offset: usize) -> (r: (usize, usize))
        requires
            old(self).well_formed(),
            i < chars@.len(),
            offset == spec_offset(chars@, i as int),
            encode_utf8(chars@).len() <= isize::MAX,
            old(self)@.previous + old(self)@.unknown_bytes <= offset,
            old(self)@.line_number <= i + 1,
            spec_lines_state(old(self)@),
            old(self)@.line_start <= offset,
        ensures
            spec_lines_state(final(self)@),
            final(self)@.line_start <= r.1,
            final(self).well_formed(),
            (r.0 as int, final(self)@) == spec_step(chars@, i as int, old(self)@),
            i < r.0 <= chars@.len(),
            r.1 == spec_offset(chars@, r.0 as int),
            final(self)@.previous + final(self)@.unknown_bytes <= r.1,
            final(self)@.line_number <= r.0 + 1,
    {
        proof {
            lemma_offset_step(chars@, i as int);
            lemma_offset_bounds(chars@, i as int);
        }
        let c = chars[i];
        let length = char_length(c);
        let after = offset + length;
        if c == '\r' || c == '\n' {
            assert(spec_char_length(c) == 1);
            self.skip(1);
            if c == '\r' && i + 1 < chars.len() && chars[i + 1] == '\n' {
                proof {
                    lemma_offset_step(chars@, i + 1);
                }
                assert(spec_char_length(chars@[i + 1]) == 1);
                self.skip(1);
                self.end_line(offset, 2);
                (i + 2, after + 1)
            } else {
                self.end_line(offset, 1);
                (i + 1, after)
            }
        } else if c == '{' {
            self.commit(Token::OpenBracket, after);
            (i + 1, after)
        } else if c == '}' {
            self.commit(Token::CloseBracket, after);
            (i + 1, after)
        } else if c == ';' {
            self.commit(Token::Semicolon, after);
            (i + 1, after)
        } else if c == '.' {
            let (name, j, end) = read_letters(chars, i + 1, after);
            if j > i + 1 {
                proof {
                    lemma_offset_bounds(chars@, j as int);
                }
                self.commit(Token::Directive(name), end);
                (j, end)
            } else {
                self.append_unknown(c, length);
                (i + 1, after)
            }
        } else if is_whitespace(c) {
            self.skip(length);
            (i + 1, after)
        } else {
            self.append_unknown(c, length);
            (i + 1, after)
        }
    }
}

/// Produces the tokens of a text, each with the range of byte offsets that it spans, and the byte offsets of its lines.
///
/// A byte order mark at the start is read and forms no token. Line breaks (`\r`, `\n` or `\r\n`) end lines; `{`, `}`
/// and `;` are tokens of their own; a dot followed by letters is a directive; whitespace separates tokens; any other
/// run of characters is a word when it is all letters and digits, and an unknown token otherwise.
#[verifier::spinoff_prover]
pub fn tokenize(source: &str) -> (r: Output)
    requires
        encode_utf8(source@).len() <= isize::MAX,
    ensures
        r@ == spec_tokenize(source@),
        spec_tokens_within(r@),
        spec_tokens_ordered(r@.tokens),
        spec_lines_consecutive(r@.offsets.lines),
{
    let chars = crate::text::chars_of(source);
    let n = chars.len();
    let mut lexer = Lexer::new();
    let mut i: usize = 0;
    let mut offset: usize = 0;
    proof {
        lemma_offset_zero(chars@);
    }
    if n > 0 && chars[0] == '\u{FEFF}' {
        proof {
            lemma_offset_step(chars@, 0);
        }
        offset = char_length(chars[0]);
        i = 1;
    }
    assert(i == spec_start(chars@));
    let ghost result = spec_lex(chars@, i as int, lexer@);
    while i < n
        invariant
            n == chars@.len(),
            i <= n,
            offset == spec_offset(chars@, i as int),
            encode_utf8(chars@).len() <= isize::MAX,
            lexer.well_formed(),
            lexer@.previous + lexer@.unknown_bytes <= offset,
            lexer@.line_number <= i + 1,
            spec_lines_state(lexer@),
            lexer@.line_start <= offset,
            spec_lex(chars@, i as int, lexer@) == result,
        decreases n - i,
    {
        let (j, end) = lexer.step(&chars, i, offset);
        i = j;
        offset = end;
    }
    proof {
        lemma_offset_bounds(chars@, i as int);
        assert(chars@.take(n as int) =~= chars@);
    }
    let ghost lexed = lexer@;
    assert(lexed == result);
    let count = lexer.lines.len();
    if count > 0 && lexer.line_start < offset {
        lexer.end_line(offset, 1);
    }
    assert(lexer@.lines == spec_finish_lines(lexed, offset as nat));
    lexer.commit_unknown();
    assert(lexer@.tokens == spec_commit_unknown(lexed).tokens);
    Output { tokens: lexer.tokens, offsets: Offsets { byte_length: offset, lines: lexer.lines } }
}

/// Whether a character has the Unicode `White_Space` property and is not a line break: tab, vertical tab, form feed,
/// space, next line, no-break space, ogham space mark, the spaces from en quad to hair space, line separator, paragraph
/// separator, narrow no-break space, medium mathematical space and ideographic space.
pub open spec fn spec_separating_space(c: char) -> bool {
    ||| c == '\t'
    ||| c == '\u{0B}'
    ||| c == '\u{0C}'
    ||| c == ' '
    ||| c == '\u{85}'
    ||| c == '\u{A0}'
    ||| c == '\u{1680}'
    ||| ('\u{2000}' <= c && c <= '\u{200A}')
    ||| c == '\u{2028}'
    ||| c == '\u{2029}'
    ||| c == '\u{202F}'
    ||| c == '\u{205F}'
    ||| c == '\u{3000}'
}

/// Whether every character is an ASCII letter or digit.
pub open spec fn spec_ascii_word(s: Seq<char>) -> bool {
    forall|k: int| 0 <= k < s.len() ==> spec_ascii_letter(#[trigger] s[k]) || spec_ascii_digit(s[k])
}

/// An ASCII character takes one byte.
proof fn lemma_ascii_length(c: char)
    requires
        (c as u32) < 0x80,
    ensures
        spec_char_length(c) == 1,
{
}

/// Wherever it stands, a whitespace character that is not a line break adds no character to any token: it ends the
/// characters gathered so far as one token and is skipped.
pub proof fn lemma_space_separates(chars: Seq<char>, i: int, st: LexState)
    requires
        0 <= i < chars.len(),
        spec_separating_space(chars[i]),
    ensures
        spec_step(chars, i, st) == (i + 1, spec_skip(st, spec_char_length(chars[i]))),
{
}

/// Reading ASCII letters and digits from position `i` to position `j` gathers them as characters of a pending token.
proof fn lemma_lex_word(chars: Seq<char>, i: int, j: int, st: LexState)
    requires
        0 <= i <= j <= chars.len(),
        spec_ascii_word(chars.subrange(i, j)),
    ensures
        spec_lex(chars, i, st) == spec_lex(
            chars,
            j,
            LexState {
                unknown: st.unknown + chars.subrange(i, j),
                unknown_bytes: st.unknown_bytes + (j - i) as nat,
                ..st
            },
        ),
    decreases j - i,
{
    if i == j {
        assert(st.unknown + chars.subrange(i, j) =~= st.unknown);
        assert(LexState { unknown: st.unknown + chars.subrange(i, j), unknown_bytes: st.unknown_bytes + (j - i) as nat, ..st } == st);
    } else {
        let c = chars[i];
        assert(chars.subrange(i, j)[0] == c);
        assert(spec_ascii_letter(c) || spec_ascii_digit(c));
        lemma_ascii_length(c);
        let next = spec_append_unknown(st, c);
        assert(spec_step(chars, i, st) == (i + 1, next));
        assert forall|k: int| 0 <= k < chars.subrange(i + 1, j).len() implies spec_ascii_letter(
            #[trigger] chars.subrange(i + 1, j)[k],
        ) || spec_ascii_digit(chars.subrange(i + 1, j)[k]) by {
            assert(chars.subrange(i + 1, j)[k] == chars.subrange(i, j)[k + 1]);
        }
        lemma_lex_word(chars, i + 1, j, next);
        assert(next.unknown + chars.subrange(i + 1, j) =~= st.unknown + chars.subrange(i, j));
    }
}

/// Two words of ASCII letters and digits with one whitespace character between them that is not a line break, a tab
/// as much as a space or an ideographic space, are read as two word tokens: the first spans its own bytes, and the
/// second starts after the bytes of the whitespace character.
pub proof fn lemma_space_separates_words(a: Seq<char>, c: char, b: Seq<char>)
    requires
        a.len() > 0,
        b.len() > 0,
        spec_ascii_word(a),
        spec_ascii_word(b),
        spec_separating_space(c),
    ensures
        spec_tokenize(a + seq![c] + b).tokens == seq![
            (TokenView::Word(a), 0nat, a.len()),
            (TokenView::Word(b), a.len() + spec_char_length(c), a.len() + spec_char_length(c) + b.len()),
        ],
{
    let chars = a + seq![c] + b;
    let n = a.len() as int;
    assert(chars[0] == a[0]);
    assert(spec_ascii_letter(a[0]) || spec_ascii_digit(a[0]));
    assert(spec_start(chars) == 0);
    assert(chars.subrange(0, n) =~= a);
    assert(chars.subrange(n + 1, chars.len() as int) =~= b);
    assert(chars[n] == c);
    let st0 = spec_initial_state();
    lemma_lex_word(chars, 0, n, st0);
    let st1 = LexState { unknown: st0.unknown + chars.subrange(0, n), unknown_bytes: st0.unknown_bytes + n as nat, ..st0 };
    assert(st1.unknown =~= a);
    lemma_space_separates(chars, n, st1);
    let st2 = spec_skip(st1, spec_char_length(c));
    assert(a.len() > 0);
    assert(spec_all_alphanumeric(a)) by {
        assert forall|k: int| 0 <= k < a.len() implies #[trigger] spec_alphanumeric(a[k]) by {
            assert(spec_ascii_letter(a[k]) || spec_ascii_digit(a[k]));
        }
    }
    assert(st2.tokens =~= seq![(TokenView::Word(a), 0nat, a.len())]);
    assert(spec_lex(chars, n, st1) == spec_lex(chars, n + 1, st2));
    lemma_lex_word(chars, n + 1, chars.len() as int, st2);
    let st3 = LexState {
        unknown: st2.unknown + chars.subrange(n + 1, chars.len() as int),
        unknown_bytes: st2.unknown_bytes + (chars.len() - (n + 1)) as nat,
        ..st2
    };
    assert(st3.unknown =~= b);
    assert(spec_lex(chars, chars.len() as int, st3) == st3);
    assert(spec_all_alphanumeric(b)) by {
        assert forall|k: int| 0 <= k < b.len() implies #[trigger] spec_alphanumeric(b[k]) by {
            assert(spec_ascii_letter(b[k]) || spec_ascii_digit(b[k]));
        }
    }
    assert(spec_commit_unknown(st3).tokens =~= seq![
        (TokenView::Word(a), 0nat, a.len()),
        (TokenView::Word(b), a.len() + spec_char_length(c), a.len() + spec_char_length(c) + b.len()),
    ]);
}

} // verus!
