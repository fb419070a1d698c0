//! Colour annotations: which terminal colour marks which kind of text.
use crate::text::{i32_text, int_text, repeat, repeated};
use vstd::prelude::*;

verus! {

/// The kinds of text that the output tells apart by colour.
#[derive(Clone, Copy, Debug, PartialEq, Eq)]
pub enum Syntax {
    Number,
    Bool,
    String,
    Error,
    Key,
    Null,
    /// A colour code given directly.
    Custom(i32),
}

impl Syntax {
    /// The terminal colour code of each kind.
    pub open spec fn code(self) -> int {
        match self {
            Syntax::String => 32,
            Syntax::Number => 35,
            Syntax::Bool => 33,
            Syntax::Error => 31,
            Syntax::Null => 35,
            Syntax::Key => 34,
            Syntax::Custom(code) => code as int,
        }
    }

    /// Looks up the colour code of this kind.
    pub fn color(&self) -> (code: i32)
        ensures
            code == self.code(),
    {
        match self {
            Syntax::String => 32,
            Syntax::Number => 35,
            Syntax::Bool => 33,
            Syntax::Error => 31,
            Syntax::Null => 35,
            Syntax::Key => 34,
            Syntax::Custom(code) => *code,
        }
    }
}

/// `data` in bold with the colour of `kind`: the escape sequence that switches
/// the colour on, the text, and the sequence that resets the terminal.
pub open spec fn painted(kind: Syntax, data: Seq<char>) -> Seq<char> {
    "\x1b[1;"@ + int_text(kind.code()) + "m"@ + data + "\x1b[0m"@
}

/// The marker that indents by one level.
pub open spec fn indent_unit() -> Seq<char> {
    "| "@
}

/// The indentation of a line `depth` levels deep: that many markers, in black.
pub open spec fn tab_text(depth: nat) -> Seq<char> {
    painted(Syntax::Custom(30), repeated(indent_unit(), depth))
}

/// Returns `data` wrapped in the colour of `num`.
pub fn cfmt(num: Syntax, data: &str) -> (s: String)
    ensures
        s@ == painted(num, data@),
{
    let code = i32_text(num.color());
    let mut s = String::from_str("\x1b[1;");
    s.append(code.as_str());
    s.append("m");
    s.append(data);
    s.append("\x1b[0m");
    s
}

/// Returns the indentation for `depth` levels.
pub fn tab(depth: usize) -> (s: String)
    ensures
        s@ == tab_text(depth as nat),
{
    let markers = repeat("| ", depth);
    cfmt(Syntax::Custom(30), markers.as_str())
}

} // verus!
