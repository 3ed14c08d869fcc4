//! The gutter beside the text: line numbers and diagnostic marks.
//!
//! What a gutter shows depends on the document, the view and the settings;
//! the functions here take from them the few numbers and flags that decide,
//! and say which style applies without looking the style up.

use vstd::prelude::*;
use vstd::string::StringExecFns;

verus! {

/// The number of decimal digits of a number; zero has one.
pub open spec fn digits(n: nat) -> nat
    decreases n,
{
    if n < 10 {
        1
    } else {
        1 + digits(n / 10)
    }
}

/// Ten to the power `e`.
pub open spec fn pow10(e: nat) -> nat
    decreases e,
{
    if e == 0 {
        1
    } else {
        10 * pow10((e - 1) as nat)
    }
}

/// A number lies between the powers of ten that its number of digits names:
/// with `d` digits it is below ten to the `d`, and, unless it is zero, at
/// least ten to the `d - 1`.
pub proof fn digits_bounds(n: nat)
    ensures
        digits(n) >= 1,
        n < pow10(digits(n)),
        n > 0 ==> pow10((digits(n) - 1) as nat) <= n,
    decreases n,
{
    reveal_with_fuel(pow10, 2);
    if n >= 10 {
        digits_bounds(n / 10);
    }
}

/// Computes the number of decimal digits needed to print a number.
pub fn digits10(n: usize) -> (count: usize)
    ensures
        count == digits(n as nat),
{
    let mut count: usize = 1;
    let mut rest: usize = n;
    while rest >= 10
        invariant
            count >= 1,
            count + digits(rest as nat) == 1 + digits(n as nat),
            count + rest <= 1 + n,
        decreases rest,
    {
        rest = rest / 10;
        count = count + 1;
    }
    count
}

/// The distance between two numbers.
pub fn abs_diff(a: usize, b: usize) -> (distance: usize)
    ensures
        distance == if a > b {
            a - b
        } else {
            b - a
        },
{
    if a > b {
        a - b
    } else {
        b - a
    }
}


/// How lines are numbered.
#[derive(Clone, Copy, Debug, PartialEq, Eq, Structural)]
pub enum LineNumber {
    /// Each line shows its own number.
    Absolute,
    /// Each line shows its distance from the line of the cursor, which shows
    /// its own number.
    Relative,
    /// No numbers are shown.
    Hidden,
}

/// The width of the line-number gutter: nothing where no numbers are shown,
/// else the digits of the number of lines.
pub open spec fn width_of(line_number: LineNumber, len_lines: nat) -> nat {
    if line_number == LineNumber::Hidden {
        0
    } else {
        digits(len_lines)
    }
}

/// The width of the line-number gutter of a document of `len_lines` lines.
pub fn line_number_width(line_number: LineNumber, len_lines: usize) -> (width: usize)
    ensures
        width == width_of(line_number, len_lines as nat),
{
    if line_number == LineNumber::Hidden {
        0
    } else {
        digits10(len_lines)
    }
}

/// The ten digits.
pub open spec fn digit_chars() -> Seq<char> {
    seq!['0', '1', '2', '3', '4', '5', '6', '7', '8', '9']
}

/// A number in decimal.
pub open spec fn decimal(n: nat) -> Seq<char>
    decreases n,
{
    if n < 10 {
        seq![digit_chars()[n as int]]
    } else {
        decimal(n / 10).push(digit_chars()[(n % 10) as int])
    }
}

/// A number in decimal has as many characters as it has digits.
pub proof fn decimal_len(n: nat)
    ensures
        decimal(n).len() == digits(n),
    decreases n,
{
    if n >= 10 {
        decimal_len(n / 10);
    }
}

/// That many spaces.
pub open spec fn spaces(count: nat) -> Seq<char> {
    Seq::new(count, |i: int| ' ')
}

/// A text moved to the right edge of a field: spaces come before it where it
/// is shorter than the field, and it is never cut.
pub open spec fn right_aligned(text: Seq<char>, width: nat) -> Seq<char> {
    if text.len() < width {
        spaces((width - text.len()) as nat) + text
    } else {
        text
    }
}

/// One digit as text.
fn digit(d: usize) -> (text: &'static str)
    requires
        d < 10,
    ensures
        text@ == seq![digit_chars()[d as int]],
{
    proof {
        reveal_strlit("0");
        reveal_strlit("1");
        reveal_strlit("2");
        reveal_strlit("3");
        reveal_strlit("4");
        reveal_strlit("5");
        reveal_strlit("6");
        reveal_strlit("7");
        reveal_strlit("8");
        reveal_strlit("9");
    }
    let text = if d == 0 {
        "0"
    } else if d == 1 {
        "1"
    } else if d == 2 {
        "2"
    } else if d == 3 {
        "3"
    } else if d == 4 {
        "4"
    } else if d == 5 {
        "5"
    } else if d == 6 {
        "6"
    } else if d == 7 {
        "7"
    } else if d == 8 {
        "8"
    } else {
        "9"
    };
    assert(text@ =~= seq![digit_chars()[d as int]]);
    text
}

/// Appends a number in decimal.
fn write_decimal(out: &mut String, n: usize)
    ensures
        final(out)@ == old(out)@ + decimal(n as nat),
    decreases n,
{
    if n >= 10 {
        write_decimal(out, n / 10);
    }
    out.append(digit(n % 10));
    assert(out@ =~= old(out)@ + decimal(n as nat));
}

/// Appends spaces.
fn write_spaces(out: &mut String, count: usize)
    ensures
        final(out)@ == old(out)@ + spaces(count as nat),
{
    proof {
        reveal_strlit(" ");
    }
    let mut written: usize = 0;
    assert(out@ =~= old(out)@ + spaces(0));
    while written < count
        invariant
            written <= count,
            out@ == old(out)@ + spaces(written as nat),
            " "@ == seq![' '],
        decreases count - written,
    {
        out.append(" ");
        written = written + 1;
        assert(out@ =~= old(out)@ + spaces(written as nat));
    }
}

/// The style of a line number.
#[derive(Clone, Copy, Debug, PartialEq, Eq, Structural)]
pub enum LineStyle {
    /// The style of line numbers.
    Linenr,
    /// The style of the number of a selected line, where the theme has one.
    LinenrSelected,
}

/// The line-number gutter of one view of a document.
#[derive(Clone, Copy, Debug, PartialEq, Eq)]
pub struct LineNumbers {
    pub line_number: LineNumber,
    pub width: usize,
    pub last_line: usize,
    pub draw_last: bool,
    pub current_line: usize,
    pub is_focused: bool,
}

impl LineNumbers {
    /// Whether a line shows a number: numbers are shown at all, and the line
    /// is not a last line that is left without one.
    pub open spec fn shows_number(self, line: usize) -> bool {
        self.line_number != LineNumber::Hidden && !(line == self.last_line && !self.draw_last)
    }

    /// The number that a line shows. Lines are counted from one.
    pub open spec fn shown_number(self, line: usize) -> nat {
        if self.line_number == LineNumber::Relative && self.current_line != line {
            if self.current_line > line {
                (self.current_line - line) as nat
            } else {
                (line - self.current_line) as nat
            }
        } else {
            (line + 1) as nat
        }
    }

    /// What the gutter shows beside a line, and in which style: nothing
    /// where no numbers are shown; a tilde beside a last line that is empty;
    /// else the number of the line, in the style of selected lines where the
    /// line is selected and the view has the focus.
    pub open spec fn rendered(self, line: usize, selected: bool) -> Option<(Seq<char>, LineStyle)> {
        if self.line_number == LineNumber::Hidden {
            None
        } else if line == self.last_line && !self.draw_last {
            Some((right_aligned(seq!['~'], self.width as nat), LineStyle::Linenr))
        } else {
            Some(
                (
                    right_aligned(decimal(self.shown_number(line)), self.width as nat),
                    if selected && self.is_focused {
                        LineStyle::LinenrSelected
                    } else {
                        LineStyle::Linenr
                    },
                ),
            )
        }
    }

    /// Appends to `out` what the gutter shows beside a line, and says in which
    /// style.
    pub fn render(&self, line: usize, selected: bool, out: &mut String) -> (style: Option<
        LineStyle,
    >)
        requires
            self.shows_number(line) ==> self.shown_number(line) <= usize::MAX,
        ensures
            match self.rendered(line, selected) {
                Some((text, expected)) => final(out)@ == old(out)@ + text && style == Some(
                    expected,
                ),
                None => final(out)@ == old(out)@ && style is None,
            },
    {
        if self.line_number == LineNumber::Hidden {
            return None;
        }
        if line == self.last_line && !self.draw_last {
            proof {
                reveal_strlit("~");
            }
            if self.width > 1 {
                write_spaces(out, self.width - 1);
            }
            out.append("~");
            assert(out@ =~= old(out)@ + right_aligned(seq!['~'], self.width as nat));
            Some(LineStyle::Linenr)
        } else {
            let number = match self.line_number {
                LineNumber::Relative => {
                    if self.current_line == line {
                        line + 1
                    } else {
                        abs_diff(self.current_line, line)
                    }
                },
                _ => line + 1,
            };
            let len = digits10(number);
            proof {
                decimal_len(number as nat);
            }
            if self.width > len {
                write_spaces(out, self.width - len);
            }
            write_decimal(out, number);
            assert(out@ =~= old(out)@ + right_aligned(
                decimal(self.shown_number(line)),
                self.width as nat,
            ));
            if selected && self.is_focused {
                Some(LineStyle::LinenrSelected)
            } else {
                Some(LineStyle::Linenr)
            }
        }
    }
}

/// The line-number gutter of a view: as wide as the number of lines needs,
/// with a number beside the last line only if that line, which starts at
/// byte `last_line_start` of `len_bytes`, is not empty.
pub fn line_number_render(
    line_number: LineNumber,
    len_lines: usize,
    last_line: usize,
    last_line_start: usize,
    len_bytes: usize,
    current_line: usize,
    is_focused: bool,
) -> (gutter: LineNumbers)
    ensures
        gutter.line_number == line_number,
        gutter.width == width_of(line_number, len_lines as nat),
        gutter.last_line == last_line,
        gutter.draw_last == (last_line_start < len_bytes),
        gutter.current_line == current_line,
        gutter.is_focused == is_focused,
{
    let width = line_number_width(line_number, len_lines);
    let draw_last = last_line_start < len_bytes;
    LineNumbers { line_number, width, last_line, draw_last, current_line, is_focused }
}

/// How severe a diagnostic is.
#[derive(Clone, Copy, Debug, PartialEq, Eq, Structural)]
pub enum Severity {
    Hint,
    Info,
    Warning,
    Error,
}

/// A diagnostic, as far as the gutter reads it: its line, and its severity
/// if it has one.
#[derive(Clone, Copy, Debug, PartialEq, Eq)]
pub struct Diagnostic {
    pub line: usize,
    pub severity: Option<Severity>,
}

/// The style of a diagnostic mark.
#[derive(Clone, Copy, Debug, PartialEq, Eq, Structural)]
pub enum DiagnosticStyle {
    Warning,
    Error,
    Info,
    Hint,
}

/// The style of the mark of a diagnostic: that of its severity, and that of
/// a warning where it has none.
pub open spec fn style_of(severity: Option<Severity>) -> DiagnosticStyle {
    match severity {
        Some(Severity::Error) => DiagnosticStyle::Error,
        Some(Severity::Warning) => DiagnosticStyle::Warning,
        None => DiagnosticStyle::Warning,
        Some(Severity::Info) => DiagnosticStyle::Info,
        Some(Severity::Hint) => DiagnosticStyle::Hint,
    }
}

/// Whether diagnostics come in the order of their lines.
pub open spec fn sorted_by_line(diagnostics: Seq<Diagnostic>) -> bool {
    forall|i: int, j: int|
        0 <= i <= j < diagnostics.len() ==> diagnostics[i].line <= diagnostics[j].line
}

/// The mark of the diagnostic gutter.
pub open spec fn mark() -> Seq<char> {
    seq!['\u{25cf}']
}

/// Appends to `out` the mark beside a line that has a diagnostic, and says in
/// which style: that of one of the diagnostics on the line. Beside a line
/// without a diagnostic there is nothing.
pub fn diagnostic_render(diagnostics: &Vec<Diagnostic>, line: usize, out: &mut String) -> (style:
    Option<DiagnosticStyle>)
    requires
        sorted_by_line(diagnostics@),
    ensures
        match style {
            Some(found) => final(out)@ == old(out)@ + mark() && exists|i: int|
                0 <= i < diagnostics@.len() && (#[trigger] diagnostics@[i]).line == line && found
                    == style_of(diagnostics@[i].severity),
            None => final(out)@ == old(out)@ && forall|i: int|
                0 <= i < diagnostics@.len() ==> (#[trigger] diagnostics@[i]).line != line,
        },
{
    let mut low: usize = 0;
    let mut high: usize = diagnostics.len();
    while low < high
        invariant
            sorted_by_line(diagnostics@),
            low <= high <= diagnostics@.len(),
            forall|i: int| 0 <= i < low ==> (#[trigger] diagnostics@[i]).line < line,
            forall|i: int|
                high <= i < diagnostics@.len() ==> (#[trigger] diagnostics@[i]).line > line,
            out@ == old(out)@,
        decreases high - low,
    {
        let middle = low + (high - low) / 2;
        let diagnostic = diagnostics[middle];
        if diagnostic.line == line {
            proof {
                reveal_strlit("\u{25cf}");
            }
            out.append("\u{25cf}");
            assert(out@ =~= old(out)@ + mark());
            let found = match diagnostic.severity {
                Some(Severity::Error) => DiagnosticStyle::Error,
                Some(Severity::Warning) | None => DiagnosticStyle::Warning,
                Some(Severity::Info) => DiagnosticStyle::Info,
                Some(Severity::Hint) => DiagnosticStyle::Hint,
            };
            return Some(found);
        } else if diagnostic.line < line {
            low = middle + 1;
        } else {
            high = middle;
        }
    }
    None
}

/// The gutters of a view.
#[derive(Clone, Copy, Debug, PartialEq, Eq, Structural)]
pub enum Gutter {
    /// Marks beside the lines that have diagnostics.
    Diagnostic,
    /// The numbers of the lines.
    LineNumber,
}

impl Gutter {
    /// The width of the gutter: one column for the marks, and what
    /// `line_number_width` gives for the numbers.
    pub fn width(&self, line_number: LineNumber, len_lines: usize) -> (width: usize)
        ensures
            width == match self {
                Gutter::Diagnostic => 1,
                Gutter::LineNumber => width_of(line_number, len_lines as nat),
            },
    {
        match self {
            Gutter::Diagnostic => 1,
            Gutter::LineNumber => line_number_width(line_number, len_lines),
        }
    }
}

} // verus!
