//! Contains the [`Printer`], which writes IL4IL assembly text.
//!
//! A directive is printed as its name after a dot, followed by its attributes, and ended either by a semicolon or by a
//! block of directives between curly brackets. A line break is only written when more text follows it.
use vstd::prelude::*;
use crate::text::push_char;
use crate::text::push_str;

verus! {

/// Indicates the character to use for indentation. The cause of many internet flame wars.
#[derive(Clone, Copy, Debug, Eq, PartialEq, Structural)]
pub enum IndentationCharacter {
    Tab,
    Space,
}

impl IndentationCharacter {
    /// The character itself.
    pub open spec fn spec_char(self) -> char {
        match self {
            IndentationCharacter::Tab => '\t',
            IndentationCharacter::Space => ' ',
        }
    }
}

impl Default for IndentationCharacter {
    fn default() -> (r: Self)
        ensures
            r == IndentationCharacter::Space,
    {
        IndentationCharacter::Space
    }
}

/// Indicates the indentation to use when printing IL4IL assembly: a character repeated a number of times.
#[derive(Clone, Copy, Debug, Eq, PartialEq, Structural)]
pub struct Indentation {
    character: IndentationCharacter,
    size: u8,
}

/// The text of one level of indentation.
pub open spec fn spec_indentation_text(character: IndentationCharacter, size: nat) -> Seq<char> {
    Seq::new(size, |i: int| character.spec_char())
}

impl Indentation {
    #[verifier::type_invariant]
    spec fn nonzero(&self) -> bool {
        self.size > 0
    }

    /// The character used for indentation, in specifications.
    pub closed spec fn spec_character(&self) -> IndentationCharacter {
        self.character
    }

    /// The number of characters in one level of indentation, in specifications.
    pub closed spec fn spec_size(&self) -> nat {
        self.size as nat
    }

    /// The text of one level of indentation.
    pub open spec fn spec_text(&self) -> Seq<char> {
        spec_indentation_text(self.spec_character(), self.spec_size())
    }

    /// Indentation with a single tab character.
    pub fn one_tab() -> (r: Self)
        ensures
            r.spec_character() == IndentationCharacter::Tab,
            r.spec_size() == 1,
    {
        Indentation { character: IndentationCharacter::Tab, size: 1 }
    }

    /// Indentation with four spaces.
    pub fn four_spaces() -> (r: Self)
        ensures
            r.spec_character() == IndentationCharacter::Space,
            r.spec_size() == 4,
    {
        Indentation { character: IndentationCharacter::Space, size: 4 }
    }

    /// Creates an indentation of `size` copies of `character`, which must be at least one.
    pub fn new(character: IndentationCharacter, size: u8) -> (r: Self)
        requires
            size > 0,
        ensures
            r.spec_character() == character,
            r.spec_size() == size,
    {
        Indentation { character, size }
    }

    /// The character used for indentation.
    pub fn character(&self) -> (r: IndentationCharacter)
        ensures
            r == self.spec_character(),
    {
        self.character
    }

    /// The number of characters to use in indentation.
    pub fn size(&self) -> (r: usize)
        ensures
            r == self.spec_size(),
            r > 0,
    {
        proof {
            use_type_invariant(self);
        }
        self.size as usize
    }

    /// Appends one level of indentation to the text.
    fn print(&self, destination: &mut String)
        ensures
            final(destination)@ == old(destination)@ + self.spec_text(),
    {
        let c = match self.character {
            IndentationCharacter::Tab => '\t',
            IndentationCharacter::Space => ' ',
        };
        let mut i: u8 = 0;
        while i < self.size
            invariant
                i <= self.size,
                c == self.spec_character().spec_char(),
                destination@ == old(destination)@ + spec_indentation_text(self.spec_character(), i as nat),
            decreases self.size - i,
        {
            push_char(destination, c);
            i = i + 1;
            assert(destination@ =~= old(destination)@ + spec_indentation_text(self.spec_character(), i as nat));
        }
    }
}

impl Default for Indentation {
    fn default() -> (r: Self)
        ensures
            r.spec_character() == IndentationCharacter::Space,
            r.spec_size() == 4,
    {
        Self::four_spaces()
    }
}

/// Options that determine what the resulting IL4IL assembly output will look like.
#[derive(Clone, Copy, Debug)]
pub struct PrintOptions {
    pub indentation: Indentation,
}

impl PrintOptions {
    /// The default options, which indent with four spaces.
    pub fn default_options() -> (r: Self)
        ensures
            r.indentation.spec_character() == IndentationCharacter::Space,
            r.indentation.spec_size() == 4,
    {
        PrintOptions { indentation: Indentation::four_spaces() }
    }
}

impl Default for PrintOptions {
    fn default() -> (r: Self)
        ensures
            r.indentation.spec_character() == IndentationCharacter::Space,
            r.indentation.spec_size() == 4,
    {
        Self::default_options()
    }
}

/// The state of a printer: the text printed so far, the text of one level of indentation, the level of indentation,
/// and whether the text is at the start of a line, where indentation is still to be printed.
pub struct PrinterView {
    pub text: Seq<char>,
    pub indentation: Seq<char>,
    pub level: nat,
    pub is_new_line: bool,
}

/// The text repeated `count` times.
pub open spec fn spec_repeat(s: Seq<char>, count: nat) -> Seq<char>
    decreases count,
{
    if count == 0 {
        Seq::empty()
    } else {
        spec_repeat(s, (count - 1) as nat) + s
    }
}

/// Appends text to what was printed.
pub open spec fn spec_append(p: PrinterView, s: Seq<char>) -> PrinterView {
    PrinterView { text: p.text + s, ..p }
}

/// Ends the current line, unless the text is already at the start of a line.
pub open spec fn spec_new_line(p: PrinterView) -> PrinterView {
    if p.is_new_line {
        p
    } else {
        PrinterView { text: p.text.push('\n'), is_new_line: true, ..p }
    }
}

/// Prints the indentation of a new line.
pub open spec fn spec_flush_indentation(p: PrinterView) -> PrinterView {
    if p.is_new_line {
        PrinterView { text: p.text + spec_repeat(p.indentation, p.level), is_new_line: false, ..p }
    } else {
        p
    }
}

/// Starts a directive on a line of its own: `.` followed by its name.
pub open spec fn spec_directive(p: PrinterView, name: Seq<char>) -> PrinterView {
    spec_append(spec_flush_indentation(spec_new_line(p)), seq!['.'] + name)
}

/// Prints an attribute of a directive, after a space.
pub open spec fn spec_attribute(p: PrinterView, attribute: Seq<char>) -> PrinterView {
    spec_append(p, seq![' '] + attribute)
}

/// Ends a directive with a semicolon.
pub open spec fn spec_finish(p: PrinterView) -> PrinterView {
    PrinterView { text: p.text.push(';'), is_new_line: false, ..p }
}

/// Opens the block of a directive, whose contents are indented one more level.
pub open spec fn spec_block(p: PrinterView) -> PrinterView {
    let opened = spec_new_line(PrinterView { text: p.text + seq![' ', '{'], is_new_line: false, ..p });
    PrinterView { level: opened.level + 1, ..opened }
}

/// Closes a block, on a line of its own.
pub open spec fn spec_finish_block(p: PrinterView) -> PrinterView {
    let closed = spec_new_line(PrinterView { level: (p.level - 1) as nat, ..p });
    PrinterView { text: closed.text.push('}'), is_new_line: false, ..closed }
}

/// Writes IL4IL assembly text into a [`String`].
#[derive(Debug)]
pub struct Printer {
    destination: String,
    options: PrintOptions,
    indentation_level: u8,
    is_new_line: bool,
}

impl View for Printer {
    type V = PrinterView;

    closed spec fn view(&self) -> PrinterView {
        PrinterView {
            text: self.destination@,
            indentation: self.options.indentation.spec_text(),
            level: self.indentation_level as nat,
            is_new_line: self.is_new_line,
        }
    }
}

/// The state of a printer that has not printed anything, with the given indentation.
pub open spec fn spec_initial(indentation: Seq<char>) -> PrinterView {
    PrinterView { text: Seq::empty(), indentation, level: 0, is_new_line: true }
}

impl Printer {
    /// Creates a printer that uses the given options.
    pub fn with_options(options: PrintOptions) -> (r: Self)
        ensures
            r@ == spec_initial(options.indentation.spec_text()),
    {
        Printer { destination: String::new(), options, indentation_level: 0, is_new_line: true }
    }

    /// Creates a printer that indents with four spaces.
    pub fn new() -> (r: Self)
        ensures
            r@ == spec_initial(spec_indentation_text(IndentationCharacter::Space, 4)),
    {
        Self::with_options(PrintOptions::default_options())
    }

    /// The options of the printer.
    pub fn options(&self) -> (r: &PrintOptions)
        ensures
            r.indentation.spec_text() == self@.indentation,
    {
        &self.options
    }

    /// The text printed so far.
    pub fn as_str(&self) -> (r: &str)
        ensures
            r@ == self@.text,
    {
        self.destination.as_str()
    }

    /// Returns the text printed.
    pub fn into_string(self) -> (r: String)
        ensures
            r@ == self@.text,
    {
        self.destination
    }

    fn print_new_line(&mut self)
        ensures
            final(self)@ == spec_new_line(old(self)@),
    {
        if !self.is_new_line {
            self.is_new_line = true;
            push_char(&mut self.destination, '\n');
        }
    }

    fn flush_indentation(&mut self)
        ensures
            final(self)@ == spec_flush_indentation(old(self)@),
    {
        if self.is_new_line {
            self.is_new_line = false;
            let mut i: u8 = 0;
            while i < self.indentation_level
                invariant
                    i <= self.indentation_level,
                    !self.is_new_line,
                    self.indentation_level == old(self).indentation_level,
                    self.options == old(self).options,
                    self.destination@ == old(self).destination@ + spec_repeat(
                        old(self)@.indentation,
                        i as nat,
                    ),
                decreases self.indentation_level - i,
            {
                self.options.indentation.print(&mut self.destination);
                i = i + 1;
            }
        }
    }

    /// Starts a directive on a line of its own.
    pub fn print_directive(&mut self, name: &str)
        ensures
            final(self)@ == spec_directive(old(self)@, name@),
    {
        self.print_new_line();
        self.flush_indentation();
        push_char(&mut self.destination, '.');
        push_str(&mut self.destination, name);
        assert(self@.text =~= spec_directive(old(self)@, name@).text);
    }

    /// Prints an attribute of the current directive, after a space.
    pub fn print_display(&mut self, attribute: &str)
        ensures
            final(self)@ == spec_attribute(old(self)@, attribute@),
    {
        push_char(&mut self.destination, ' ');
        push_str(&mut self.destination, attribute);
        assert(self@.text =~= spec_attribute(old(self)@, attribute@).text);
    }

    /// Ends the current directive with a semicolon.
    pub fn finish(&mut self)
        ensures
            final(self)@ == spec_finish(old(self)@),
    {
        push_char(&mut self.destination, ';');
        self.is_new_line = false;
        assert(self@.text =~= spec_finish(old(self)@).text);
    }

    /// Opens the block of the current directive.
    pub fn block(&mut self)
        requires
            old(self)@.level < 255,
        ensures
            final(self)@ == spec_block(old(self)@),
    {
        push_char(&mut self.destination, ' ');
        push_char(&mut self.destination, '{');
        self.is_new_line = false;
        self.print_new_line();
        self.indentation_level = self.indentation_level + 1;
        assert(self@.text =~= spec_block(old(self)@).text);
    }

    /// Closes the current block.
    pub fn finish_block(&mut self)
        requires
            old(self)@.level > 0,
        ensures
            final(self)@ == spec_finish_block(old(self)@),
    {
        self.indentation_level = self.indentation_level - 1;
        self.print_new_line();
        push_char(&mut self.destination, '}');
        self.is_new_line = false;
        assert(self@.text =~= spec_finish_block(old(self)@).text);
    }
}

} // verus!
