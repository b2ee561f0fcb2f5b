//! How deep the tree of a TOML document is, by a walk that builds no tree.
//!
//! A reader that descends once for every table and array must not be handed
//! a document that nests without end. The walk here goes through the bytes
//! once. It tells strings and comments from the rest as TOML does and keeps
//! the level of the value that it stands in: the table of the last header,
//! a level for each part of the key that holds a value, and a level for
//! each array on the way. Dots in numbers and dates are no parts of a key.
//! The level that it finds is meant to be never less than the depth of the
//! tree that the reader builds, and to be that depth in documents of the
//! usual kinds; where the name of a header is written with a backslash, so
//! that it is not plain to see, the walk takes it to lead through every
//! array of tables that it might. None of this is proved: the walk decides
//! what the reader is asked for, and what comes back is measured again.
//!
//! The walk guards the reader of the `toml` crate, version 0.4.10, and each
//! of its rules is a rule of that reader. Where the reader refuses a
//! document, the walk may go on in any way: nothing is read then. The rules,
//! with their places in the `src/` of that crate:
//!
//! | The walk | `toml` 0.4.10 |
//! |---|---|
//! | A byte-order mark at the very start is passed over (`Scan::step`). | tokens.rs:85 |
//! | Outside strings and comments stand only line ends, blanks, signs of one byte, quotes and the letters of bare keys; a carriage return counts with the line feed behind it (`Scan::token`, `spec_blank`). | tokens.rs:89-116, 462-473, 501-507 |
//! | A comment runs from `#` to the end of its line (`Lex::Comment`). | tokens.rs:268-276, 210-216 |
//! | One quote opens a string of one line, two are an empty string, three open a string of many lines (`Lex::Opened`). | tokens.rs:285-296 |
//! | A string of one line ends with its quote and holds no line feed (`spec_after_line`). | tokens.rs:301-316, 317-331 |
//! | A string of many lines ends with three quotes in a row; one or two are part of it (`Lex::Block`). | tokens.rs:317-331 |
//! | In a basic string a backslash takes the next character with it; a literal string knows no backslash (`escaped`). | tokens.rs:349-406, 338-347 |
//! | Blanks, comments and empty lines before a line are nothing; a line that begins with `[` is a header, any other a key with its value (`Place::LineStart`). | de.rs:997-1014 |
//! | A second `[` right behind the first makes the header one of an array of tables; behind the name the line holds nothing more (`Place::Header`, `Place::Rest`). | de.rs:1016-1042, 1788-1809; tokens.rs:233-241 |
//! | The parts of a name are divided by dots outside strings, with blanks around them (`Scan::end_part`, `Scan::end_key`). | de.rs:1450-1460, 1788-1795; tokens.rs:169-201 |
//! | A key of several parts makes a table for each part but the last (`Scan::end_key`). | de.rs:1474-1506 |
//! | Only in the place of a value does `{` open a table in a line and `[` an array (`Scan::open`). | de.rs:1059-1096 |
//! | A table in a line holds keys with values, divided by commas, with no line end between them (`Place::Key`). | de.rs:1385-1406 |
//! | An array holds values divided by commas, with blanks, line ends and comments between them (`Scan::end_line`). | de.rs:1410-1444 |
//! | Numbers, dates and truth values are made of letters, dots, colons, plus signs and one blank: they open nothing (`Place::Value`). | de.rs:1098-1384 |
//! | The table of a header lies one level down for each part of its name; where an earlier header in double brackets had the first parts for its name, the name leads through the last element of that array (`Scan::end_header`, `spec_leads_through`). | de.rs:294-359, 361-392, 398-430 |
//! | Two names are the same where their parts are, whatever the quotes (`Scan::name_byte`, `spec_closes`). | de.rs:309-319; tokens.rs:169-201 |
//! | A tree is built with a table for every table and an array for every array that was read (`Node::depth`). | value.rs:460-495 |

use vstd::prelude::*;

verus! {

/// The bound that a document must keep to be read.
pub const MAX_NESTING: usize = 64;

/// The tab, which is blank.
pub const TAB: u8 = 9;

/// The three bytes of the byte-order mark, which may stand before a
/// document.
pub const MARK: [u8; 3] = [239, 187, 191];

/// The line feed, which ends a line.
pub const LINE_FEED: u8 = 10;

/// The carriage return, which is blank.
pub const CARRIAGE_RETURN: u8 = 13;

/// The space, which is blank.
pub const SPACE: u8 = 32;

/// The quote of a basic string: `"`.
pub const DOUBLE_QUOTE: u8 = 34;

/// The sign that opens a comment: `#`.
pub const HASH: u8 = 35;

/// The quote of a literal string: `'`.
pub const SINGLE_QUOTE: u8 = 39;

/// The comma between the values of an array or a table: `,`.
pub const COMMA: u8 = 44;

/// The dot between the parts of a name: `.`.
pub const DOT: u8 = 46;

/// The sign between a key and its value: `=`.
pub const EQUALS: u8 = 61;

/// The bracket that opens an array or a header: `[`.
pub const OPEN_BRACKET: u8 = 91;

/// The backslash, which in a basic string takes the next byte with it.
pub const BACKSLASH: u8 = 92;

/// The bracket that closes an array or a header: `]`.
pub const CLOSE_BRACKET: u8 = 93;

/// The brace that opens a table in a line: `{`.
pub const OPEN_BRACE: u8 = 123;

/// The brace that closes a table in a line: `}`.
pub const CLOSE_BRACE: u8 = 125;

/// Where in a document a byte stands.
#[derive(Clone, Copy, Debug, PartialEq, Eq, Structural)]
pub enum Lex {
    /// Outside strings and comments.
    Plain,
    /// In a comment, which ends with its line.
    Comment,
    /// Behind the quote that opens a string, or behind two of them.
    Opened { basic: bool, twice: bool },
    /// In a string of one line; `escaped` behind a backslash.
    Line { basic: bool, escaped: bool },
    /// In a string of many lines, which three quotes end; `escaped` behind
    /// a backslash, and `quotes` for the quotes seen of those three.
    Block { basic: bool, escaped: bool, quotes: u8 },
}

/// The quote of a basic string, and that of a literal one.
pub open spec fn spec_quote(basic: bool) -> u8 {
    if basic {
        DOUBLE_QUOTE
    } else {
        SINGLE_QUOTE
    }
}

/// The quote of a basic string, and that of a literal one.
#[verifier::when_used_as_spec(spec_quote)]
pub fn quote(basic: bool) -> (r: u8)
    ensures
        r == spec_quote(basic),
{
    if basic {
        DOUBLE_QUOTE
    } else {
        SINGLE_QUOTE
    }
}

/// Where the next byte stands, behind a byte outside strings and comments.
pub open spec fn spec_after_plain(byte: u8) -> Lex {
    if byte == HASH {
        Lex::Comment
    } else if byte == DOUBLE_QUOTE {
        Lex::Opened { basic: true, twice: false }
    } else if byte == SINGLE_QUOTE {
        Lex::Opened { basic: false, twice: false }
    } else {
        Lex::Plain
    }
}

/// Where the next byte stands, behind a byte in a string of one line. The
/// string ends with its quote, and at the latest with its line. In a basic
/// string a backslash takes the next byte with it.
pub open spec fn spec_after_line(basic: bool, byte: u8) -> Lex {
    if byte == quote(basic) || byte == LINE_FEED {
        Lex::Plain
    } else {
        Lex::Line { basic, escaped: basic && byte == BACKSLASH }
    }
}

/// Where the next byte stands, behind a byte in a string of many lines
/// that is no quote.
pub open spec fn spec_after_block(basic: bool, byte: u8) -> Lex {
    Lex::Block { basic, escaped: basic && byte == BACKSLASH, quotes: 0 }
}

/// Where the next byte stands.
pub open spec fn spec_lex_step(lex: Lex, byte: u8) -> Lex {
    match lex {
        Lex::Plain => spec_after_plain(byte),
        Lex::Comment => if byte == LINE_FEED {
            Lex::Plain
        } else {
            Lex::Comment
        },
        Lex::Opened { basic, twice } => if byte == quote(basic) {
            if twice {
                Lex::Block { basic, escaped: false, quotes: 0 }
            } else {
                Lex::Opened { basic, twice: true }
            }
        } else if twice {
            spec_after_plain(byte)
        } else {
            spec_after_line(basic, byte)
        },
        Lex::Line { basic, escaped } => if escaped {
            Lex::Line { basic, escaped: false }
        } else {
            spec_after_line(basic, byte)
        },
        Lex::Block { basic, escaped, quotes } => if escaped {
            Lex::Block { basic, escaped: false, quotes: 0 }
        } else if byte == quote(basic) {
            if quotes >= 2 {
                Lex::Plain
            } else {
                Lex::Block { basic, escaped: false, quotes: (quotes + 1) as u8 }
            }
        } else {
            spec_after_block(basic, byte)
        },
    }
}

/// Whether a byte stands outside strings and comments: where nothing is
/// open, and behind the two quotes of an empty string.
pub open spec fn spec_counts(lex: Lex, byte: u8) -> bool {
    match lex {
        Lex::Plain => true,
        Lex::Opened { basic, twice } => twice && byte != quote(basic),
        _ => false,
    }
}

/// A level that is `more` above `level`. Levels beyond the bound are all
/// counted as the one next to it.
pub open spec fn spec_up(level: usize, more: usize) -> usize {
    if level + more > MAX_NESTING {
        (MAX_NESTING + 1) as usize
    } else {
        (level + more) as usize
    }
}

/// A level that is `more` above `level`.
#[verifier::when_used_as_spec(spec_up)]
pub fn up(level: usize, more: usize) -> (r: usize)
    ensures
        r == spec_up(level, more),
{
    if level > MAX_NESTING || more > MAX_NESTING - level {
        MAX_NESTING + 1
    } else {
        level + more
    }
}

/// The higher of two levels.
pub open spec fn spec_higher(a: usize, b: usize) -> usize {
    if a > b {
        a
    } else {
        b
    }
}

/// The higher of two levels.
#[verifier::when_used_as_spec(spec_higher)]
pub fn higher(a: usize, b: usize) -> (r: usize)
    ensures
        r == spec_higher(a, b),
{
    if a > b {
        a
    } else {
        b
    }
}

/// An array or a table in a line that is open.
#[derive(Clone, Copy, Debug, PartialEq, Eq, Structural)]
pub struct Frame {
    /// Whether it is a table: what it holds has keys.
    pub table: bool,
    /// The level at which it lies.
    pub level: usize,
}

/// What the walk expects next.
#[derive(Clone, Copy, Debug, PartialEq, Eq, Structural)]
pub enum Place {
    /// A line has begun, outside every array.
    LineStart,
    /// The name of a header; `double` in double brackets, and `fresh`
    /// right behind the first bracket.
    Header { double: bool, fresh: bool },
    /// What follows a header on its line.
    Rest,
    /// The key of a value.
    Key,
    /// A value, or what follows one.
    Value,
}

/// Whether a byte is one of the two quotes.
pub open spec fn spec_is_quote(byte: u8) -> bool {
    byte == DOUBLE_QUOTE || byte == SINGLE_QUOTE
}

/// Whether a byte ends the string of one line that it stands in.
pub open spec fn spec_closes(lex: Lex, byte: u8) -> bool {
    match lex {
        Lex::Opened { basic, twice } => byte == quote(basic),
        Lex::Line { basic, escaped } => !escaped && byte == quote(basic),
        _ => false,
    }
}

/// Whether the name read so far may be the name of an array of tables that
/// an earlier header opened: it is one of their names, byte for byte; and
/// where a backslash stands in it or in one of theirs, it may be one of
/// them written in another way.
pub open spec fn spec_leads_through(
    arrays: Seq<Seq<u8>>,
    wild: bool,
    name: Seq<u8>,
    name_wild: bool,
) -> bool {
    arrays.contains(name) || (arrays.len() > 0 && (wild || name_wild))
}

/// Whether a byte is blank between the words of a line.
pub open spec fn spec_blank(byte: u8) -> bool {
    byte == SPACE || byte == TAB || byte == CARRIAGE_RETURN
}

/// What a walk through a document knows.
pub struct Scan {
    pub lex: Lex,
    /// The arrays and the tables in a line that are open, the innermost
    /// last.
    pub frames: Seq<Frame>,
    /// The level of the table of the last header; 1 before the first.
    pub table_level: usize,
    pub place: Place,
    /// The dots of the name that is being read.
    pub dots: usize,
    /// The level of the value that comes next.
    pub held: usize,
    /// The deepest level of any value so far.
    pub deepest: usize,
    /// The names of the headers in double brackets so far: the parts of
    /// each as they are written, without the quotes and the blanks around
    /// them, with a line feed, which no part can hold, between them.
    pub arrays: Seq<Seq<u8>>,
    /// Whether a backslash stands in one of those names.
    pub wild: bool,
    /// The name of the header that is being read, as far as it is read.
    pub name: Seq<u8>,
    /// Whether a backslash stands in it.
    pub name_wild: bool,
    /// Through how many arrays of tables the name read so far may lead.
    pub through: usize,
    /// How many bytes of a byte-order mark the document has begun with so
    /// far; 3 where the mark is over or there is none.
    pub mark: usize,
}

impl Scan {
    /// The walk before the first byte: in the table that is the document.
    pub open spec fn start() -> Scan {
        Scan {
            lex: Lex::Plain,
            frames: Seq::empty(),
            table_level: 1,
            place: Place::LineStart,
            dots: 0,
            held: 1,
            deepest: 1,
            arrays: Seq::empty(),
            wild: false,
            name: Seq::empty(),
            name_wild: false,
            through: 0,
            mark: 0,
        }
    }

    /// The level of what the walk stands in: the innermost array or table
    /// in a line, or the table of the last header.
    pub open spec fn around(self) -> usize {
        if self.frames.len() > 0 {
            self.frames.last().level
        } else {
            self.table_level
        }
    }

    /// The walk behind the end of a line. Outside every array a new line
    /// begins; in an array the end of a line is blank.
    pub open spec fn end_line(self) -> Scan {
        if self.frames.len() == 0 {
            Scan { place: Place::LineStart, dots: 0, ..self }
        } else {
            self
        }
    }

    /// The walk behind a byte of the name of a header.
    pub open spec fn name_byte(self, byte: u8) -> Scan {
        Scan {
            name: self.name.push(byte),
            name_wild: self.name_wild || byte == BACKSLASH,
            ..self
        }
    }

    /// The walk behind a dot in the name of a header: a part has ended, and
    /// where the name so far may be that of an array of tables, the name
    /// leads through its last element.
    pub open spec fn end_part(self) -> Scan {
        Scan {
            dots: spec_up(self.dots, 1),
            through: if spec_leads_through(
                self.arrays,
                self.wild,
                self.name,
                self.name_wild,
            ) {
                spec_up(self.through, 1)
            } else {
                self.through
            },
            ..self
        }.name_byte(LINE_FEED)
    }

    /// The walk behind the bracket that ends the name of a header. The
    /// table of the header lies a level below the document for each part of
    /// its name, one more for each array of tables that the name leads
    /// through, and one more where it is itself an element of such an
    /// array.
    pub open spec fn end_header(self, double: bool) -> Scan {
        let parts = spec_up(self.dots, 1);
        let named = spec_up(spec_up(1, parts), self.through);
        let level = spec_up(
            named,
            if double {
                1
            } else {
                0
            },
        );
        Scan {
            table_level: level,
            deepest: spec_higher(self.deepest, level),
            arrays: if double {
                self.arrays.push(self.name)
            } else {
                self.arrays
            },
            wild: self.wild || (double && self.name_wild),
            place: Place::Rest,
            ..self
        }
    }

    /// The walk behind the sign that ends a key: the value lies a level
    /// below what is around it for each part of the key.
    pub open spec fn end_key(self) -> Scan {
        let held = spec_up(self.around(), spec_up(self.dots, 1));
        Scan { held, deepest: spec_higher(self.deepest, held), place: Place::Value, ..self }
    }

    /// The walk behind the bracket or brace that opens a value. The value
    /// lies where a value was due. What an array holds lies one level
    /// below it; what a table holds lies as its keys say.
    pub open spec fn open(self, table: bool) -> Scan {
        Scan {
            frames: self.frames.push(Frame { table, level: self.held }),
            deepest: spec_higher(self.deepest, self.held),
            held: if table {
                self.held
            } else {
                spec_up(self.held, 1)
            },
            place: if table {
                Place::Key
            } else {
                Place::Value
            },
            dots: 0,
            ..self
        }
    }

    /// The walk behind the bracket or brace that closes the innermost
    /// array or table.
    pub open spec fn close(self) -> Scan {
        if self.frames.len() == 0 {
            self
        } else {
            let frames = self.frames.drop_last();
            Scan {
                frames,
                place: Place::Value,
                held: if frames.len() == 0 {
                    self.table_level
                } else if frames.last().table {
                    frames.last().level
                } else {
                    spec_up(frames.last().level, 1)
                },
                ..self
            }
        }
    }

    /// The walk behind a byte that stands outside strings and comments and
    /// is neither blank nor the end of a line.
    pub open spec fn word(self, byte: u8) -> Scan {
        match self.place {
            Place::LineStart => if byte == OPEN_BRACKET {
                Scan {
                    place: Place::Header { double: false, fresh: true },
                    dots: 0,
                    name: Seq::empty(),
                    name_wild: false,
                    through: 0,
                    ..self
                }
            } else if byte == EQUALS {
                (Scan { dots: 0, ..self }).end_key()
            } else {
                Scan {
                    place: Place::Key,
                    dots: if byte == DOT {
                        1
                    } else {
                        0
                    },
                    ..self
                }
            },
            Place::Header { double, fresh } => if byte == OPEN_BRACKET && fresh {
                Scan { place: Place::Header { double: true, fresh: false }, ..self }
            } else if byte == DOT {
                (Scan { place: Place::Header { double, fresh: false }, ..self }).end_part()
            } else if byte == CLOSE_BRACKET {
                self.end_header(double)
            } else if spec_is_quote(byte) {
                Scan { place: Place::Header { double, fresh: false }, ..self }
            } else {
                (Scan { place: Place::Header { double, fresh: false }, ..self }).name_byte(byte)
            },
            Place::Rest => self,
            Place::Key => if byte == DOT {
                Scan { dots: spec_up(self.dots, 1), ..self }
            } else if byte == EQUALS {
                self.end_key()
            } else if byte == CLOSE_BRACE || byte == CLOSE_BRACKET {
                self.close()
            } else {
                self
            },
            Place::Value => if byte == OPEN_BRACKET {
                self.open(false)
            } else if byte == OPEN_BRACE {
                self.open(true)
            } else if byte == CLOSE_BRACKET || byte == CLOSE_BRACE {
                self.close()
            } else if byte == COMMA {
                if self.frames.len() > 0 && self.frames.last().table {
                    Scan { place: Place::Key, dots: 0, ..self }
                } else {
                    self
                }
            } else {
                Scan { deepest: spec_higher(self.deepest, self.held), ..self }
            },
        }
    }

    /// The walk behind one more byte. A line feed outside a string of many
    /// lines ends the line. A byte in a string, but for the quote that ends
    /// it, belongs to the name of a header where one is being read.
    /// Otherwise a byte in a string or a
    /// comment, a blank and the sign that opens a comment change nothing
    /// but where the next byte stands.
    pub open spec fn token(self, byte: u8) -> Scan {
        let next = spec_lex_step(self.lex, byte);
        if byte == LINE_FEED && !(self.lex is Block) {
            Scan { lex: next, ..self.end_line() }
        } else if !spec_counts(self.lex, byte) {
            if self.place is Header && !(self.lex is Comment) && !spec_closes(self.lex, byte) {
                Scan { lex: next, ..self.name_byte(byte) }
            } else {
                Scan { lex: next, ..self }
            }
        } else if spec_blank(byte) || byte == HASH || byte == LINE_FEED {
            Scan { lex: next, ..self }
        } else {
            Scan { lex: next, ..self.word(byte) }
        }
    }

    /// The walk behind one more byte of the document. A byte-order mark at
    /// the very start of the document is passed over; every other byte is
    /// taken as it stands.
    pub open spec fn step(self, byte: u8) -> Scan {
        if self.mark < 3 && byte == MARK[self.mark as int] {
            Scan { mark: (self.mark + 1) as usize, ..self }
        } else {
            (Scan { mark: 3, ..self }).token(byte)
        }
    }

    /// The walk behind `bytes`.
    pub open spec fn walk(self, bytes: Seq<u8>) -> Scan
        decreases bytes.len(),
    {
        if bytes.len() == 0 {
            self
        } else {
            self.walk(bytes.drop_last()).step(bytes.last())
        }
    }
}

/// How deep the walk finds the tree of a document: the level of its
/// deepest value, with the document itself at level 1. Beyond the bound all
/// depths are counted as the one next to it.
pub open spec fn nesting_found(bytes: Seq<u8>) -> nat {
    Scan::start().walk(bytes).deepest as nat
}

/// Where the next byte stands.
fn lex_step(lex: Lex, byte: u8) -> (r: Lex)
    ensures
        r == spec_lex_step(lex, byte),
{
    match lex {
        Lex::Plain => after_plain(byte),
        Lex::Comment => if byte == LINE_FEED {
            Lex::Plain
        } else {
            Lex::Comment
        },
        Lex::Opened { basic, twice } => if byte == quote(basic) {
            if twice {
                Lex::Block { basic, escaped: false, quotes: 0 }
            } else {
                Lex::Opened { basic, twice: true }
            }
        } else if twice {
            after_plain(byte)
        } else {
            after_line(basic, byte)
        },
        Lex::Line { basic, escaped } => if escaped {
            Lex::Line { basic, escaped: false }
        } else {
            after_line(basic, byte)
        },
        Lex::Block { basic, escaped, quotes } => if escaped {
            Lex::Block { basic, escaped: false, quotes: 0 }
        } else if byte == quote(basic) {
            if quotes >= 2 {
                Lex::Plain
            } else {
                Lex::Block { basic, escaped: false, quotes: quotes + 1 }
            }
        } else {
            Lex::Block { basic, escaped: basic && byte == BACKSLASH, quotes: 0 }
        },
    }
}

fn after_plain(byte: u8) -> (r: Lex)
    ensures
        r == spec_after_plain(byte),
{
    if byte == HASH {
        Lex::Comment
    } else if byte == DOUBLE_QUOTE {
        Lex::Opened { basic: true, twice: false }
    } else if byte == SINGLE_QUOTE {
        Lex::Opened { basic: false, twice: false }
    } else {
        Lex::Plain
    }
}

fn after_line(basic: bool, byte: u8) -> (r: Lex)
    ensures
        r == spec_after_line(basic, byte),
{
    if byte == quote(basic) || byte == LINE_FEED {
        Lex::Plain
    } else {
        Lex::Line { basic, escaped: basic && byte == BACKSLASH }
    }
}

fn counts(lex: Lex, byte: u8) -> (r: bool)
    ensures
        r == spec_counts(lex, byte),
{
    match lex {
        Lex::Plain => true,
        Lex::Opened { basic, twice } => twice && byte != quote(basic),
        _ => false,
    }
}

fn blank(byte: u8) -> (r: bool)
    ensures
        r == spec_blank(byte),
{
    byte == SPACE || byte == TAB || byte == CARRIAGE_RETURN
}

/// The names that a list holds.
pub open spec fn spec_names(arrays: Seq<Vec<u8>>) -> Seq<Seq<u8>> {
    Seq::new(arrays.len(), |j: int| arrays[j]@)
}

fn is_quote(byte: u8) -> (r: bool)
    ensures
        r == spec_is_quote(byte),
{
    byte == DOUBLE_QUOTE || byte == SINGLE_QUOTE
}

fn same_bytes(a: &Vec<u8>, b: &Vec<u8>) -> (r: bool)
    ensures
        r == (a@ == b@),
{
    if a.len() != b.len() {
        return false;
    }
    let mut i: usize = 0;
    while i < a.len()
        invariant
            i <= a.len(),
            a.len() == b.len(),
            forall|j: int| 0 <= j < i ==> a@[j] == b@[j],
        decreases a.len() - i,
    {
        if a[i] != b[i] {
            return false;
        }
        i += 1;
    }
    assert(a@ =~= b@);
    true
}

fn closes(lex: Lex, byte: u8) -> (r: bool)
    ensures
        r == spec_closes(lex, byte),
{
    match lex {
        Lex::Opened { basic, twice } => byte == quote(basic),
        Lex::Line { basic, escaped } => !escaped && byte == quote(basic),
        _ => false,
    }
}

fn leads_through(arrays: &Vec<Vec<u8>>, wild: bool, name: &Vec<u8>, name_wild: bool) -> (r: bool)
    ensures
        r == spec_leads_through(spec_names(arrays@), wild, name@, name_wild),
{
    assert(spec_names(arrays@).len() == arrays.len());
    if arrays.len() > 0 && (wild || name_wild) {
        return true;
    }
    let mut k: usize = 0;
    while k < arrays.len()
        invariant
            k <= arrays.len(),
            forall|j: int| 0 <= j < k ==> spec_names(arrays@)[j] != name@,
        decreases arrays.len() - k,
    {
        assert(spec_names(arrays@)[k as int] == arrays@[k as int]@);
        if same_bytes(&arrays[k], name) {
            assert(spec_names(arrays@).contains(name@));
            return true;
        }
        k += 1;
    }
    false
}

/// The walk as it is carried through the bytes.
struct Walker {
    lex: Lex,
    frames: Vec<Frame>,
    table_level: usize,
    place: Place,
    dots: usize,
    held: usize,
    deepest: usize,
    arrays: Vec<Vec<u8>>,
    wild: bool,
    name: Vec<u8>,
    name_wild: bool,
    through: usize,
    mark: usize,
}

impl View for Walker {
    type V = Scan;

    closed spec fn view(&self) -> Scan {
        Scan {
            lex: self.lex,
            frames: self.frames@,
            table_level: self.table_level,
            place: self.place,
            dots: self.dots,
            held: self.held,
            deepest: self.deepest,
            arrays: spec_names(self.arrays@),
            wild: self.wild,
            name: self.name@,
            name_wild: self.name_wild,
            through: self.through,
            mark: self.mark,
        }
    }
}

impl Walker {
    fn start() -> (r: Walker)
        ensures
            r@ == Scan::start(),
    {
        let arrays: Vec<Vec<u8>> = Vec::new();
        assert(spec_names(arrays@) =~= Seq::<Seq<u8>>::empty());
        Walker {
            lex: Lex::Plain,
            frames: Vec::new(),
            table_level: 1,
            place: Place::LineStart,
            dots: 0,
            held: 1,
            deepest: 1,
            arrays,
            wild: false,
            name: Vec::new(),
            name_wild: false,
            through: 0,
            mark: 0,
        }
    }

    fn around(&self) -> (r: usize)
        ensures
            r == self@.around(),
    {
        let n = self.frames.len();
        if n > 0 {
            self.frames[n - 1].level
        } else {
            self.table_level
        }
    }

    fn name_byte(&mut self, byte: u8)
        ensures
            final(self)@ == old(self)@.name_byte(byte),
    {
        self.name.push(byte);
        self.name_wild = self.name_wild || byte == BACKSLASH;
    }

    fn end_part(&mut self)
        ensures
            final(self)@ == old(self)@.end_part(),
    {
        self.dots = up(self.dots, 1);
        if leads_through(&self.arrays, self.wild, &self.name, self.name_wild) {
            self.through = up(self.through, 1);
        }
        self.name_byte(LINE_FEED);
    }

    fn end_header(&mut self, double: bool)
        ensures
            final(self)@ == old(self)@.end_header(double),
    {
        let parts = up(self.dots, 1);
        let named = up(up(1, parts), self.through);
        let level = up(
            named,
            if double {
                1
            } else {
                0
            },
        );
        self.table_level = level;
        self.deepest = higher(self.deepest, level);
        if double {
            let ghost before = spec_names(self.arrays@);
            let mut name: Vec<u8> = Vec::new();
            let mut i: usize = 0;
            while i < self.name.len()
                invariant
                    i <= self.name.len(),
                    name@ == self.name@.take(i as int),
                    self.name == old(self).name,
                    self.arrays == old(self).arrays,
                decreases self.name.len() - i,
            {
                name.push(self.name[i]);
                assert(self.name@.take(i + 1) =~= self.name@.take(i as int).push(
                    self.name@[i as int],
                ));
                i += 1;
            }
            assert(self.name@.take(self.name.len() as int) =~= self.name@);
            self.arrays.push(name);
            assert(spec_names(self.arrays@) =~= before.push(self.name@));
            self.wild = self.wild || self.name_wild;
        }
        self.place = Place::Rest;
    }

    fn end_key(&mut self)
        ensures
            final(self)@ == old(self)@.end_key(),
    {
        let held = up(self.around(), up(self.dots, 1));
        self.held = held;
        self.deepest = higher(self.deepest, held);
        self.place = Place::Value;
    }

    fn open(&mut self, table: bool)
        ensures
            final(self)@ == old(self)@.open(table),
    {
        self.frames.push(Frame { table, level: self.held });
        self.deepest = higher(self.deepest, self.held);
        if table {
            self.place = Place::Key;
        } else {
            self.held = up(self.held, 1);
            self.place = Place::Value;
        }
        self.dots = 0;
    }

    fn close(&mut self)
        ensures
            final(self)@ == old(self)@.close(),
    {
        if self.frames.len() > 0 {
            self.frames.pop();
            let n = self.frames.len();
            self.place = Place::Value;
            if n == 0 {
                self.held = self.table_level;
            } else if self.frames[n - 1].table {
                self.held = self.frames[n - 1].level;
            } else {
                self.held = up(self.frames[n - 1].level, 1);
            }
        }
    }

    fn word(&mut self, byte: u8)
        ensures
            final(self)@ == old(self)@.word(byte),
    {
        match self.place {
            Place::LineStart => {
                if byte == OPEN_BRACKET {
                    self.place = Place::Header { double: false, fresh: true };
                    self.dots = 0;
                    self.name = Vec::new();
                    self.name_wild = false;
                    self.through = 0;
                } else if byte == EQUALS {
                    self.dots = 0;
                    self.end_key();
                } else {
                    self.place = Place::Key;
                    self.dots = if byte == DOT {
                        1
                    } else {
                        0
                    };
                }
            },
            Place::Header { double, fresh } => {
                if byte == OPEN_BRACKET && fresh {
                    self.place = Place::Header { double: true, fresh: false };
                } else if byte == DOT {
                    self.place = Place::Header { double, fresh: false };
                    self.end_part();
                } else if byte == CLOSE_BRACKET {
                    self.end_header(double);
                } else if is_quote(byte) {
                    self.place = Place::Header { double, fresh: false };
                } else {
                    self.place = Place::Header { double, fresh: false };
                    self.name_byte(byte);
                }
            },
            Place::Rest => {},
            Place::Key => {
                if byte == DOT {
                    self.dots = up(self.dots, 1);
                } else if byte == EQUALS {
                    self.end_key();
                } else if byte == CLOSE_BRACE || byte == CLOSE_BRACKET {
                    self.close();
                }
            },
            Place::Value => {
                if byte == OPEN_BRACKET {
                    self.open(false);
                } else if byte == OPEN_BRACE {
                    self.open(true);
                } else if byte == CLOSE_BRACKET || byte == CLOSE_BRACE {
                    self.close();
                } else if byte == COMMA {
                    let n = self.frames.len();
                    if n > 0 && self.frames[n - 1].table {
                        self.place = Place::Key;
                        self.dots = 0;
                    }
                } else {
                    self.deepest = higher(self.deepest, self.held);
                }
            },
        }
    }

    fn step(&mut self, byte: u8)
        ensures
            final(self)@ == old(self)@.step(byte),
    {
        if self.mark < 3 && byte == MARK[self.mark] {
            self.mark = self.mark + 1;
        } else {
            self.mark = 3;
            self.token(byte);
        }
    }

    fn token(&mut self, byte: u8)
        ensures
            final(self)@ == old(self)@.token(byte),
    {
        let next = lex_step(self.lex, byte);
        let in_block = match self.lex {
            Lex::Block { .. } => true,
            _ => false,
        };
        if byte == LINE_FEED && !in_block {
            if self.frames.len() == 0 {
                self.place = Place::LineStart;
                self.dots = 0;
            }
        } else if !counts(self.lex, byte) {
            let in_header = match self.place {
                Place::Header { .. } => true,
                _ => false,
            };
            let in_comment = match self.lex {
                Lex::Comment => true,
                _ => false,
            };
            if in_header && !in_comment && !closes(self.lex, byte) {
                self.name_byte(byte);
            }
        } else if blank(byte) || byte == HASH || byte == LINE_FEED {
        } else {
            self.word(byte);
        }
        self.lex = next;
    }
}

/// How deep the tree of a document is, as the walk finds it.
pub fn nesting(bytes: &[u8]) -> (r: usize)
    ensures
        r == nesting_found(bytes@),
{
    let mut walker = Walker::start();
    let mut i: usize = 0;
    assert(bytes@.take(0) =~= Seq::<u8>::empty());
    while i < bytes.len()
        invariant
            i <= bytes.len(),
            walker@ == Scan::start().walk(bytes@.take(i as int)),
        decreases bytes.len() - i,
    {
        proof {
            let upto = bytes@.take(i + 1);
            assert(upto.drop_last() =~= bytes@.take(i as int));
            assert(upto.last() == bytes@[i as int]);
        }
        walker.step(bytes[i]);
        i += 1;
    }
    assert(bytes@.take(bytes.len() as int) =~= bytes@);
    walker.deepest
}

/// Whether the tree of a document is no deeper than the bound.
pub fn within_nesting(bytes: &[u8]) -> (r: bool)
    ensures
        r == (nesting_found(bytes@) <= MAX_NESTING),
{
    nesting(bytes) <= MAX_NESTING
}

} // verus!
