//! Source positions: where a construct stands in a source file.
//!
//! A position remembers its file path, one-based line and column numbers,
//! and the text of its line, so that a diagnostic can show the offending
//! line with a caret under the offending column. Positions ride along on
//! every construct of the representation but never influence a compilation
//! result: two positions always compare equal, so that otherwise identical
//! modules compare equal wherever they were parsed from.

use vstd::math::min;
use vstd::prelude::*;
use vstd::string::StrSliceExecFns;
use vstd::string::StringExecFns;

verus! {

/// The character standing for the decimal digit `d`.
pub open spec fn digit_char(d: nat) -> char {
    if d == 0 {
        '0'
    } else if d == 1 {
        '1'
    } else if d == 2 {
        '2'
    } else if d == 3 {
        '3'
    } else if d == 4 {
        '4'
    } else if d == 5 {
        '5'
    } else if d == 6 {
        '6'
    } else if d == 7 {
        '7'
    } else if d == 8 {
        '8'
    } else {
        '9'
    }
}

/// The decimal rendering of `n`, most significant digit first.
pub open spec fn decimal(n: nat) -> Seq<char>
    decreases n,
{
    if n < 10 {
        seq![digit_char(n)]
    } else {
        decimal(n / 10).push(digit_char(n % 10))
    }
}

/// `count` spaces.
pub open spec fn spaces(count: nat) -> Seq<char> {
    Seq::new(count, |i: int| ' ')
}

/// What stands under a line character in the caret line: tabs keep their
/// width, everything else becomes a space.
pub open spec fn pad_char(c: char) -> char {
    if c == '\t' {
        '\t'
    } else {
        ' '
    }
}

/// The padding that places the caret under column `columns + 1` of `line`:
/// one pad character per line character before that column.
pub open spec fn caret_padding(line: Seq<char>, columns: nat) -> Seq<char> {
    Seq::new(min(columns as int, line.len() as int) as nat, |i: int| pad_char(line[i]))
}

/// The diagnostic rendering of a position: the path, the numbered source
/// line, and a caret line pointing at the column.
pub open spec fn position_text(
    path: Seq<char>,
    line_number: usize,
    column_number: usize,
    line: Seq<char>,
) -> Seq<char> {
    let header = decimal(line_number as nat) + seq![':'] + decimal(column_number as nat)
        + seq![':'];
    path + seq!['\n'] + header + seq!['\t'] + line + seq!['\n'] + spaces(header.len())
        + seq!['\t'] + caret_padding(line, (column_number - 1) as nat) + seq!['^']
}

/// The abstract state of a [`Position`].
pub struct PositionView {
    pub path: Seq<char>,
    pub line_number: usize,
    pub column_number: usize,
    pub line: Seq<char>,
}

/// A place in a source file: path, one-based line and column numbers, and
/// the text of the line.
#[derive(Debug)]
pub struct Position {
    path: String,
    line_number: usize,
    column_number: usize,
    line: String,
}

impl View for Position {
    type V = PositionView;

    closed spec fn view(&self) -> PositionView {
        PositionView {
            path: self.path@,
            line_number: self.line_number,
            column_number: self.column_number,
            line: self.line@,
        }
    }
}

impl Position {
    pub fn new(path: &str, line_number: usize, column_number: usize, line: &str) -> (position:
        Position)
        ensures
            position@ == (PositionView { path: path@, line_number, column_number, line: line@ }),
    {
        Position { path: path.to_owned(), line_number, column_number, line: line.to_owned() }
    }

    pub fn path(&self) -> (path: &str)
        ensures
            path@ == self@.path,
    {
        self.path.as_str()
    }

    pub fn line_number(&self) -> (line_number: usize)
        ensures
            line_number == self@.line_number,
    {
        self.line_number
    }

    pub fn column_number(&self) -> (column_number: usize)
        ensures
            column_number == self@.column_number,
    {
        self.column_number
    }

    pub fn line(&self) -> (line: &str)
        ensures
            line@ == self@.line,
    {
        self.line.as_str()
    }

    /// Renders the position for a diagnostic: the path, the numbered
    /// source line, and a caret line pointing at the column.
    pub fn to_text(&self) -> (text: String)
        requires
            self@.column_number >= 1,
        ensures
            text@ == position_text(self@.path, self@.line_number, self@.column_number, self@.line),
    {
        let mut header = String::new();
        push_decimal(self.line_number, &mut header);
        header.append(":");
        push_decimal(self.column_number, &mut header);
        header.append(":");

        proof {
            reveal_strlit(":");
            assert((":")@ =~= seq![':']);
            assert(header@ =~= decimal(self@.line_number as nat) + seq![':'] + decimal(
                self@.column_number as nat,
            ) + seq![':']);
        }

        let header_length = header.as_str().unicode_len();

        let mut text = String::new();
        text.append(self.path.as_str());
        text.append("\n");
        text.append(header.as_str());
        text.append("\t");
        text.append(self.line.as_str());
        text.append("\n");
        push_spaces(header_length, &mut text);
        text.append("\t");
        push_caret_padding(self.line.as_str(), self.column_number - 1, &mut text);
        text.append("^");

        proof {
            reveal_strlit("\n");
            reveal_strlit("\t");
            reveal_strlit("^");
            assert(("\n")@ =~= seq!['\n']);
            assert(("\t")@ =~= seq!['\t']);
            assert(("^")@ =~= seq!['^']);
            assert(text@ =~= position_text(
                self@.path,
                self@.line_number,
                self@.column_number,
                self@.line,
            ));
        }

        text
    }
}

impl Clone for Position {
    /// An exact copy: the clone renders and compares as the original does.
    fn clone(&self) -> (cloned: Self)
        ensures
            cloned == *self,
    {
        Position {
            path: self.path.clone(),
            line_number: self.line_number,
            column_number: self.column_number,
            line: self.line.clone(),
        }
    }
}

impl PartialEq for Position {
    /// Positions never influence equality of what carries them: any two
    /// compare equal.
    fn eq(&self, _other: &Position) -> (equal: bool) {
        true
    }
}

impl Eq for Position {

}

impl vstd::std_specs::cmp::PartialEqSpecImpl for Position {
    open spec fn obeys_eq_spec() -> bool {
        true
    }

    open spec fn eq_spec(&self, _other: &Position) -> bool {
        true
    }
}

/// The character of a single decimal digit.
fn digit_str(digit: usize) -> (text: &'static str)
    requires
        digit < 10,
    ensures
        text@ == seq![digit_char(digit as nat)],
{
    proof {
        reveal_strlit("0");
        reveal_strlit("1");
        reveal_strlit("2");
        reveal_strlit("3");
        reveal_strlit("4");
        reveal_strlit("5");
        reveal_strlit("6");
        reveal_strlit("7");
        reveal_strlit("8");
        reveal_strlit("9");
    }
    let text = if digit == 0 {
        "0"
    } else if digit == 1 {
        "1"
    } else if digit == 2 {
        "2"
    } else if digit == 3 {
        "3"
    } else if digit == 4 {
        "4"
    } else if digit == 5 {
        "5"
    } else if digit == 6 {
        "6"
    } else if digit == 7 {
        "7"
    } else if digit == 8 {
        "8"
    } else {
        "9"
    };
    proof {
        assert(text@ =~= seq![digit_char(digit as nat)]);
    }
    text
}

/// Appends the decimal rendering of `n` to `out`.
pub(crate) fn push_decimal(n: usize, out: &mut String)
    ensures
        final(out)@ == old(out)@ + decimal(n as nat),
    decreases n,
{
    if n >= 10 {
        push_decimal(n / 10, out);
    }
    out.append(digit_str(n % 10));
    proof {
        assert(final(out)@ =~= old(out)@ + decimal(n as nat));
    }
}

/// Appends `count` spaces to `out`.
fn push_spaces(count: usize, out: &mut String)
    ensures
        final(out)@ == old(out)@ + spaces(count as nat),
{
    let mut pushed: usize = 0;
    while pushed < count
        invariant
            pushed <= count,
            out@ == old(out)@ + spaces(pushed as nat),
        decreases count - pushed,
    {
        out.append(" ");
        pushed = pushed + 1;
        proof {
            reveal_strlit(" ");
            assert(out@ =~= old(out)@ + spaces(pushed as nat));
        }
    }
    proof {
        assert(final(out)@ =~= old(out)@ + spaces(count as nat));
    }
}

/// Appends the caret padding for the first `columns` characters of `line`
/// to `out`.
fn push_caret_padding(line: &str, columns: usize, out: &mut String)
    ensures
        final(out)@ == old(out)@ + caret_padding(line@, columns as nat),
{
    let length = line.unicode_len();
    let limit = if columns < length {
        columns
    } else {
        length
    };
    let mut pushed: usize = 0;
    while pushed < limit
        invariant
            pushed <= limit,
            limit == min(columns as int, line@.len() as int),
            out@ == old(out)@ + caret_padding(line@, pushed as nat),
        decreases limit - pushed,
    {
        let c = line.get_char(pushed);
        if c == '\t' {
            out.append("\t");
        } else {
            out.append(" ");
        }
        pushed = pushed + 1;
        proof {
            reveal_strlit("\t");
            reveal_strlit(" ");
            assert(out@ =~= old(out)@ + caret_padding(line@, pushed as nat));
        }
    }
    proof {
        assert(caret_padding(line@, limit as nat) =~= caret_padding(line@, columns as nat));
        assert(final(out)@ =~= old(out)@ + caret_padding(line@, columns as nat));
    }
}

} // verus!
