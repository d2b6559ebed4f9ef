//! A value type for source-code locations.
//!
//! A [`Position`] records a module path, file path, line and column, offers
//! accessors for each field, renders itself as `file:line:column`, and can
//! prefix an error message with that rendering. Equality and ordering are
//! structural over the four fields, compared in field order.

use core::cmp::Ordering;
use vstd::prelude::*;
use vstd::string::StringExecFns;

pub mod text;

verus! {

use crate::text::{
    decimal_digits,
    decimal_string,
    lemma_seq_cmp_equal,
    lemma_seq_cmp_flip,
    lemma_seq_cmp_trans,
    seq_cmp,
    str_cmp,
    str_eq,
};
use vstd::std_specs::cmp::{PartialEqSpec, PartialOrdSpec};

/// Mathematical model of a [`Position`]: the four captured coordinates,
/// with the strings as character sequences.
#[verifier::ext_equal]
pub ghost struct PositionView {
    pub module: Seq<char>,
    pub file: Seq<char>,
    pub line: nat,
    pub column: nat,
}

impl PositionView {
    /// The textual rendering `file:line:column`; the module path is
    /// deliberately left out.
    pub open spec fn rendered(self) -> Seq<char> {
        self.file + seq![':'] + decimal_digits(self.line) + seq![':'] + decimal_digits(self.column)
    }

    /// An error message prefixed by the rendering: `file:line:column: error`.
    pub open spec fn rendered_with(self, error: Seq<char>) -> Seq<char> {
        self.rendered() + seq![':', ' '] + error
    }

    /// Lexicographic order over (module, file, line, column): the first
    /// field that differs decides.
    pub open spec fn cmp_with(self, other: PositionView) -> Ordering {
        let m = seq_cmp(self.module, other.module);
        let f = seq_cmp(self.file, other.file);
        if m != Ordering::Equal {
            m
        } else if f != Ordering::Equal {
            f
        } else if self.line < other.line {
            Ordering::Less
        } else if other.line < self.line {
            Ordering::Greater
        } else if self.column < other.column {
            Ordering::Less
        } else if other.column < self.column {
            Ordering::Greater
        } else {
            Ordering::Equal
        }
    }
}

/// Source code position
#[derive(Clone, Copy, Debug, Eq, Ord, Hash)]
pub struct Position {
    /// Module path of the call site
    module: &'static str,
    /// Source file of the call site
    file: &'static str,
    /// Line number of the call site
    line: u32,
    /// Column number of the call site
    column: u32,
}

impl View for Position {
    type V = PositionView;

    closed spec fn view(&self) -> PositionView {
        PositionView {
            module: self.module@,
            file: self.file@,
            line: self.line as nat,
            column: self.column as nat,
        }
    }
}

impl Position {
    /// Construct a new `Position`
    pub fn new(module: &'static str, file: &'static str, line: u32, column: u32) -> (p: Position)
        ensures
            p@.module == module@,
            p@.file == file@,
            p@.line == line as nat,
            p@.column == column as nat,
    {
        Position { module, file, line, column }
    }

    /// Get the source file of the call site
    pub fn file(self) -> (r: &'static str)
        ensures
            r@ == self@.file,
    {
        self.file
    }

    /// Get the module path of the call site
    pub fn module(self) -> (r: &'static str)
        ensures
            r@ == self@.module,
    {
        self.module
    }

    /// Get the line number of the call site
    pub fn line(self) -> (r: u32)
        ensures
            r as nat == self@.line,
    {
        self.line
    }

    /// Get the column number of the call site
    pub fn column(self) -> (r: u32)
        ensures
            r as nat == self@.column,
    {
        self.column
    }

    /// Render the position as `file:line:column`.
    pub fn display_string(&self) -> (s: String)
        ensures
            s@ == self@.rendered(),
    {
        let mut s = String::from_str(self.file);
        s.append(":");
        let line = decimal_string(self.line);
        s.append(line.as_str());
        s.append(":");
        let column = decimal_string(self.column);
        s.append(column.as_str());
        proof {
            reveal_strlit(":");
            assert(s@ =~= self@.rendered());
        }
        s
    }

    /// Prefix an error message with the rendered position,
    /// as `file:line:column: error`.
    pub fn fmt_error(&self, error: &str) -> (s: String)
        ensures
            s@ == self@.rendered_with(error@),
    {
        let mut s = self.display_string();
        s.append(": ");
        s.append(error);
        proof {
            reveal_strlit(": ");
            assert(s@ =~= self@.rendered_with(error@));
        }
        s
    }
}

impl PartialEq for Position {
    fn eq(&self, other: &Position) -> bool {
        let r = str_eq(self.module, other.module) && str_eq(self.file, other.file) && self.line
            == other.line && self.column == other.column;
        proof {
            if r {
                assert(self@ =~= other@);
            }
        }
        r
    }
}

impl vstd::std_specs::cmp::PartialEqSpecImpl for Position {
    open spec fn obeys_eq_spec() -> bool {
        true
    }

    open spec fn eq_spec(&self, other: &Position) -> bool {
        self@ == other@
    }
}

impl PartialOrd for Position {
    fn partial_cmp(&self, other: &Position) -> Option<Ordering> {
        let m = str_cmp(self.module, other.module);
        let r = match m {
            Ordering::Equal => {
                let f = str_cmp(self.file, other.file);
                match f {
                    Ordering::Equal => {
                        if self.line < other.line {
                            Ordering::Less
                        } else if other.line < self.line {
                            Ordering::Greater
                        } else if self.column < other.column {
                            Ordering::Less
                        } else if other.column < self.column {
                            Ordering::Greater
                        } else {
                            Ordering::Equal
                        }
                    },
                    _ => f,
                }
            },
            _ => m,
        };
        Some(r)
    }
}

impl vstd::std_specs::cmp::PartialOrdSpecImpl for Position {
    open spec fn obeys_partial_cmp_spec() -> bool {
        true
    }

    open spec fn partial_cmp_spec(&self, other: &Position) -> Option<Ordering> {
        Some(self@.cmp_with(other@))
    }
}

/// Equality is structural: two positions are equal exactly when all four
/// fields agree, so positions differing in any one field are unequal.
pub proof fn lemma_eq_is_structural(a: Position, b: Position)
    ensures
        a.eq_spec(&b) <==> (a@.module == b@.module && a@.file == b@.file && a@.line == b@.line
            && a@.column == b@.column),
{
    if a@.module == b@.module && a@.file == b@.file && a@.line == b@.line && a@.column
        == b@.column {
        assert(a@ =~= b@);
    }
}

/// Ordering agrees with equality: comparison answers `Equal` exactly on
/// equal positions.
pub proof fn lemma_cmp_equal_iff_eq(a: Position, b: Position)
    ensures
        a.partial_cmp_spec(&b) == Some(Ordering::Equal) <==> a.eq_spec(&b),
{
    lemma_seq_cmp_equal(a@.module, b@.module);
    lemma_seq_cmp_equal(a@.file, b@.file);
    lemma_eq_is_structural(a, b);
}

/// The order is antisymmetric: swapping the arguments flips the answer.
pub proof fn lemma_cmp_flip(a: Position, b: Position)
    ensures
        a.partial_cmp_spec(&b) == Some(Ordering::Less) <==> b.partial_cmp_spec(&a) == Some(
            Ordering::Greater,
        ),
        a.partial_cmp_spec(&b) == Some(Ordering::Equal) <==> b.partial_cmp_spec(&a) == Some(
            Ordering::Equal,
        ),
{
    lemma_seq_cmp_flip(a@.module, b@.module);
    lemma_seq_cmp_flip(b@.module, a@.module);
    lemma_seq_cmp_flip(a@.file, b@.file);
    lemma_seq_cmp_flip(b@.file, a@.file);
}

/// The order is transitive.
pub proof fn lemma_cmp_trans(a: Position, b: Position, c: Position)
    requires
        a.partial_cmp_spec(&b) == Some(Ordering::Less),
        b.partial_cmp_spec(&c) == Some(Ordering::Less),
    ensures
        a.partial_cmp_spec(&c) == Some(Ordering::Less),
{
    lemma_seq_cmp_equal(a@.module, b@.module);
    lemma_seq_cmp_equal(b@.module, c@.module);
    lemma_seq_cmp_equal(a@.file, b@.file);
    lemma_seq_cmp_equal(b@.file, c@.file);
    if seq_cmp(a@.module, b@.module) == Ordering::Less && seq_cmp(b@.module, c@.module)
        == Ordering::Less {
        lemma_seq_cmp_trans(a@.module, b@.module, c@.module);
    }
    if seq_cmp(a@.file, b@.file) == Ordering::Less && seq_cmp(b@.file, c@.file)
        == Ordering::Less {
        lemma_seq_cmp_trans(a@.file, b@.file, c@.file);
    }
}

} // verus!
