//! Rendering of compiler errors for a terminal, with the offending source
//! line and a marker under the offending text.
//!
//! Colours come from the `console` crate, which paints text only when
//! colours are enabled for the process; the rendering is stated for either
//! outcome of each painted piece.
use vstd::prelude::*;
use crate::error::error_code::{code_text, ErrorCode};
use crate::error::errors::{CompileError, CompileErrorView, ErrorPhase};
use crate::location::line_tracker::{line_text, LineTracker};
use crate::location::source_span::{span_text, SourceSpan, SpanView};
use crate::text::{i64_text, int_text};

verus! {

/// The colours and weights pieces of a report are painted in.
#[derive(Debug, Clone, Copy, PartialEq, Eq, Structural)]
pub enum Paint {
    RedBold,
    Red,
    Yellow,
    Blue,
    BlueBold,
    Cyan,
    Green,
}

/// The escape codes that open a paint.
pub open spec fn paint_codes(p: Paint) -> Seq<char> {
    match p {
        Paint::RedBold => "\x1b[31m\x1b[1m"@,
        Paint::Red => "\x1b[31m"@,
        Paint::Yellow => "\x1b[33m"@,
        Paint::Blue => "\x1b[34m"@,
        Paint::BlueBold => "\x1b[34m\x1b[1m"@,
        Paint::Cyan => "\x1b[36m"@,
        Paint::Green => "\x1b[32m"@,
    }
}

/// `text` in paint `p`: wrapped in the paint's codes and a reset when
/// colours are `on`, plain otherwise.
pub open spec fn painted(text: Seq<char>, p: Paint, on: bool) -> Seq<char> {
    if on {
        paint_codes(p) + text + "\x1b[0m"@
    } else {
        text
    }
}

/// `console::style(text).red().bold()`, displayed. Whether it is painted
/// depends on whether colours are enabled for the process.
#[verifier::external_body]
fn red_bold(text: &str) -> (r: String)
    ensures
        r@ == painted(text@, Paint::RedBold, true) || r@ == painted(text@, Paint::RedBold, false),
{
    console::style(text).red().bold().to_string()
}

/// `console::style(text).red()`, displayed; painted or plain.
#[verifier::external_body]
fn red(text: &str) -> (r: String)
    ensures
        r@ == painted(text@, Paint::Red, true) || r@ == painted(text@, Paint::Red, false),
{
    console::style(text).red().to_string()
}

/// `console::style(text).yellow()`, displayed; painted or plain.
#[verifier::external_body]
fn yellow(text: &str) -> (r: String)
    ensures
        r@ == painted(text@, Paint::Yellow, true) || r@ == painted(text@, Paint::Yellow, false),
{
    console::style(text).yellow().to_string()
}

/// `console::style(text).blue()`, displayed; painted or plain.
#[verifier::external_body]
fn blue(text: &str) -> (r: String)
    ensures
        r@ == painted(text@, Paint::Blue, true) || r@ == painted(text@, Paint::Blue, false),
{
    console::style(text).blue().to_string()
}

/// `console::style(text).blue().bold()`, displayed; painted or plain.
#[verifier::external_body]
fn blue_bold(text: &str) -> (r: String)
    ensures
        r@ == painted(text@, Paint::BlueBold, true) || r@ == painted(text@, Paint::BlueBold, false),
{
    console::style(text).blue().bold().to_string()
}

/// `console::style(text).cyan()`, displayed; painted or plain.
#[verifier::external_body]
fn cyan(text: &str) -> (r: String)
    ensures
        r@ == painted(text@, Paint::Cyan, true) || r@ == painted(text@, Paint::Cyan, false),
{
    console::style(text).cyan().to_string()
}

/// `console::style(text).green()`, displayed; painted or plain.
#[verifier::external_body]
fn green(text: &str) -> (r: String)
    ensures
        r@ == painted(text@, Paint::Green, true) || r@ == painted(text@, Paint::Green, false),
{
    console::style(text).green().to_string()
}

/// `text` in paint `p`, painted or plain as colours are enabled.
pub(crate) fn paint(text: &str, p: Paint) -> (r: String)
    ensures
        r@ == painted(text@, p, true) || r@ == painted(text@, p, false),
{
    match p {
        Paint::RedBold => red_bold(text),
        Paint::Red => red(text),
        Paint::Yellow => yellow(text),
        Paint::Blue => blue(text),
        Paint::BlueBold => blue_bold(text),
        Paint::Cyan => cyan(text),
        Paint::Green => green(text),
    }
}

/// `n` spaces.
pub open spec fn spaces(n: nat) -> Seq<char> {
    Seq::new(n, |i: int| ' ')
}

/// `n` carets.
pub open spec fn carets(n: nat) -> Seq<char> {
    Seq::new(n, |i: int| '^')
}

/// A line number right-aligned in four columns.
pub open spec fn pad4(n: int) -> Seq<char> {
    let t = int_text(n);
    if t.len() < 4 {
        spaces((4 - t.len()) as nat) + t
    } else {
        t
    }
}

/// The marker under the offending text: carets from the start column to
/// the end column (at least one) on a one-line span, a single caret at the
/// start column otherwise.
pub open spec fn underline_text(start_line: i32, end_line: i32, start_col: i32, end_col: i32) -> Seq<char> {
    let offset: nat = if start_col >= 1 {
        (start_col - 1) as nat
    } else {
        0
    };
    if start_line == end_line {
        let n: nat = if end_col - start_col >= 1 {
            (end_col - start_col) as nat
        } else {
            1
        };
        spaces(offset) + carets(n)
    } else {
        spaces(offset) + "^"@
    }
}

/// The code of an error in brackets, or a single space without one.
pub open spec fn code_prefix_text(code: Option<ErrorCode>, on: bool) -> Seq<char> {
    match code {
        Some(c) => " ["@ + painted(code_text(c), Paint::RedBold, on) + "] "@,
        None => " "@,
    }
}

/// The heading of a located report: code, category and message, then the
/// location.
pub open spec fn report_head(
    category: Seq<char>,
    message: Seq<char>,
    span: SpanView,
    code: Option<ErrorCode>,
    on: Seq<bool>,
) -> Seq<char> {
    painted("ERROR"@, Paint::RedBold, on[0]) + code_prefix_text(code, on[1]) + painted(category, Paint::Red, on[2])
        + ": "@ + painted(message, Paint::Yellow, on[3]) + "\n"@ + painted("Location:"@, Paint::Blue, on[4]) + " "@
        + painted(span_text(span), Paint::Cyan, on[5])
}

/// The source context of a located report: the source line with the marker
/// under the offending text, and the lines spanned when there are several;
/// nothing when the line is unknown or empty.
pub open spec fn report_context(span: SpanView, source_line: Seq<char>, marker_on: bool, dots_on: bool) -> Seq<char> {
    let sl = span.start.spec_line();
    let el = span.end.spec_line();
    if source_line.len() == 0 {
        Seq::empty()
    } else {
        "\n"@ + pad4(sl as int) + " │ "@ + source_line + "\n     │ "@ + painted(
            underline_text(sl, el, span.start.spec_column(), span.end.spec_column()),
            Paint::RedBold,
            marker_on,
        ) + if sl != el {
            "\n     │ "@ + painted("..."@, Paint::Blue, dots_on) + " (error spans lines "@ + int_text(sl as int) + "-"@
                + int_text(el as int) + ")"@
        } else {
            Seq::empty()
        }
    }
}

/// The help line of a report, if there is help.
pub open spec fn report_help(help: Option<Seq<char>>, label_on: bool, text_on: bool) -> Seq<char> {
    match help {
        Some(h) => "\n"@ + painted("help:"@, Paint::BlueBold, label_on) + " "@ + painted(h, Paint::Green, text_on),
        None => Seq::empty(),
    }
}

/// The report of an error of `category` at `span`, the pieces painted as
/// `on` says: heading, source context, help, and a final line break.
pub open spec fn error_report_text(
    category: Seq<char>,
    message: Seq<char>,
    span: SpanView,
    source_line: Seq<char>,
    help: Option<Seq<char>>,
    code: Option<ErrorCode>,
    on: Seq<bool>,
) -> Seq<char> {
    report_head(category, message, span, code, on) + report_context(span, source_line, on[6], on[7]) + report_help(
        help,
        on[8],
        on[9],
    ) + "\n"@
}

/// The report of an error without location.
pub open spec fn simple_report_text(
    error_type: Seq<char>,
    message: Seq<char>,
    code: Option<ErrorCode>,
    on: Seq<bool>,
) -> Seq<char> {
    painted("ERROR"@, Paint::RedBold, on[0]) + code_prefix_text(code, on[1]) + painted(error_type, Paint::Red, on[2])
        + ": "@ + painted(message, Paint::Yellow, on[3]) + "\n"@
}

/// The line of `source` a located report shows: the line of its start,
/// without its line break, or nothing when the source has no such line.
pub open spec fn shown_line(source: Seq<char>, line: i32) -> Seq<char> {
    match line_text(source, line as int) {
        Some(l) => l,
        None => Seq::empty(),
    }
}

/// `out` reports error `e` found in `source`, for some choice of painted
/// and plain pieces.
pub open spec fn reports_error(out: Seq<char>, e: CompileErrorView, source: Seq<char>) -> bool {
    exists|on: Seq<bool>|
        on.len() == 10 && out == #[trigger] report_for(e, source, on)
}

/// The report of error `e` found in `source`, the pieces painted as `on` says.
pub open spec fn report_for(e: CompileErrorView, source: Seq<char>, on: Seq<bool>) -> Seq<char> {
    match e {
        CompileErrorView::Located { phase, code, message, span, help } => error_report_text(
            match phase {
                ErrorPhase::Lexer => "LEX"@,
                ErrorPhase::Syntax => "SYNTAX"@,
                ErrorPhase::Type => "TYPE"@,
            },
            message,
            span,
            shown_line(source, span.start.spec_line()),
            help,
            code,
            on,
        ),
        CompileErrorView::Io(message) => simple_report_text("I/O"@, message, None, on),
    }
}

/// The pieces concatenated in order.
pub open spec fn concat_all(parts: Seq<Seq<char>>) -> Seq<char>
    decreases parts.len(),
{
    if parts.len() == 0 {
        Seq::empty()
    } else {
        concat_all(parts.drop_last()) + parts.last()
    }
}

/// `n` copies of `c`.
fn repeat_char(c: char, n: u64) -> (r: String)
    ensures
        r@ == Seq::new(n as nat, |i: int| c),
{
    let mut r = String::new();
    let mut i: u64 = 0;
    while i < n
        invariant
            i <= n,
            r@ == Seq::new(i as nat, |k: int| c),
        decreases n - i,
    {
        crate::text::push_char(&mut r, c);
        i = i + 1;
        assert(r@ =~= Seq::new(i as nat, |k: int| c));
    }
    r
}

/// The code of an error in brackets, or a single space without one.
fn code_prefix(code: Option<ErrorCode>) -> (r: String)
    ensures
        exists|on: bool| r@ == code_prefix_text(code, on),
{
    match code {
        Some(c) => {
            let painted_code = red_bold(c.code());
            let mut r = String::from_str(" [");
            r.append(painted_code.as_str());
            r.append("] ");
            proof {
                if painted_code@ == painted(code_text(c), Paint::RedBold, true) {
                    assert(r@ =~= code_prefix_text(code, true));
                } else {
                    assert(r@ =~= code_prefix_text(code, false));
                }
            }
            r
        },
        None => {
            let r = String::from_str(" ");
            assert(r@ == code_prefix_text(code, false));
            r
        },
    }
}

/// The report of an error without location.
fn format_simple_error(error_type: &str, message: &str, code: Option<ErrorCode>) -> (r: String)
    ensures
        exists|on: Seq<bool>| on.len() == 10 && r@ == simple_report_text(error_type@, message@, code, on),
{
    let e = red_bold("ERROR");
    let p = code_prefix(code);
    let t = red(error_type);
    let m = yellow(message);
    let mut r = String::new();
    r.append(e.as_str());
    r.append(p.as_str());
    r.append(t.as_str());
    r.append(": ");
    r.append(m.as_str());
    r.append("\n");
    proof {
        let f0 = e@ == painted("ERROR"@, Paint::RedBold, true);
        let f1 = choose|on: bool| p@ == code_prefix_text(code, on);
        let f2 = t@ == painted(error_type@, Paint::Red, true);
        let f3 = m@ == painted(message@, Paint::Yellow, true);
        let on = seq![f0, f1, f2, f3, false, false, false, false, false, false];
        assert(on.len() == 10);
        assert(on[0] == f0 && on[1] == f1 && on[2] == f2 && on[3] == f3);
        assert(e@ == painted("ERROR"@, Paint::RedBold, on[0]));
        assert(p@ == code_prefix_text(code, on[1]));
        assert(t@ == painted(error_type@, Paint::Red, on[2]));
        assert(m@ == painted(message@, Paint::Yellow, on[3]));
        assert(r@ =~= simple_report_text(error_type@, message@, code, on));
    }
    r
}

/// A line number right-aligned in four columns.
fn pad_line_number(n: i32) -> (r: String)
    ensures
        r@ == pad4(n as int),
{
    let t = i64_text(n as i64);
    let len = t.as_str().unicode_len();
    let mut r = if len < 4 {
        repeat_char(' ', (4 - len) as u64)
    } else {
        String::new()
    };
    r.append(t.as_str());
    proof {
        if len < 4 {
            assert(r@ =~= pad4(n as int));
        } else {
            assert(r@ =~= pad4(n as int));
        }
    }
    r
}

/// The heading of a located report.
fn heading(category: &str, message: &str, span: &SourceSpan, code: Option<ErrorCode>) -> (r: String)
    ensures
        exists|on: Seq<bool>| on.len() == 6 && r@ == report_head(category@, message@, span@, code, on),
{
    let e = red_bold("ERROR");
    let p = code_prefix(code);
    let c = red(category);
    let m = yellow(message);
    let l = blue("Location:");
    let span_str = span.to_text();
    let s = cyan(span_str.as_str());
    let mut output = String::new();
    output.append(e.as_str());
    output.append(p.as_str());
    output.append(c.as_str());
    output.append(": ");
    output.append(m.as_str());
    output.append("\n");
    output.append(l.as_str());
    output.append(" ");
    output.append(s.as_str());
    proof {
        let f0 = e@ == painted("ERROR"@, Paint::RedBold, true);
        let f1 = choose|on: bool| p@ == code_prefix_text(code, on);
        let f2 = c@ == painted(category@, Paint::Red, true);
        let f3 = m@ == painted(message@, Paint::Yellow, true);
        let f4 = l@ == painted("Location:"@, Paint::Blue, true);
        let f5 = s@ == painted(span_text(span@), Paint::Cyan, true);
        let on = seq![f0, f1, f2, f3, f4, f5];
        assert(on.len() == 6);
        assert(on[0] == f0 && on[1] == f1 && on[2] == f2 && on[3] == f3 && on[4] == f4 && on[5] == f5);
        assert(output@ =~= report_head(category@, message@, span@, code, on));
    }
    output
}

/// The help line of a report, if there is help.
fn help_text(help: Option<&str>) -> (r: String)
    ensures
        exists|a: bool, b: bool| r@ == report_help(opt_str_view(help), a, b),
{
    let mut output = String::new();
    match help {
        Some(h) => {
            let hl = blue_bold("help:");
            let ht = green(h);
            output.append("\n");
            output.append(hl.as_str());
            output.append(" ");
            output.append(ht.as_str());
            proof {
                let f8 = hl@ == painted("help:"@, Paint::BlueBold, true);
                let f9 = ht@ == painted(h@, Paint::Green, true);
                assert(output@ =~= report_help(opt_str_view(help), f8, f9));
            }
        },
        None => {
            assert(output@ =~= report_help(opt_str_view(help), false, false));
        },
    }
    output
}

/// The source context of a report at `span` whose start line reads
/// `source_line`.
fn source_context(span: &SourceSpan, source_line: &str) -> (r: String)
    ensures
        exists|m: bool, d: bool| r@ == report_context(span@, source_line@, m, d),
{
    let start_line = span.start().line();
    let start_column = span.start().column();
    let end_line = span.end().line();
    let end_column = span.end().column();
    let mut output = String::new();
    let ghost mut f6 = false;
    let ghost mut f7 = false;
    if source_line.unicode_len() > 0 {
        output.append("\n");
        let padded = pad_line_number(start_line);
        output.append(padded.as_str());
        output.append(" │ ");
        output.append(source_line);
        let offset: u64 = if start_column >= 1 {
            (start_column - 1) as u64
        } else {
            0
        };
        let mut underline = repeat_char(' ', offset);
        if start_line == end_line {
            let n: u64 = if end_column as i64 - start_column as i64 >= 1 {
                (end_column as i64 - start_column as i64) as u64
            } else {
                1
            };
            let marks = repeat_char('^', n);
            underline.append(marks.as_str());
        } else {
            underline.append("^");
        }
        proof {
            assert(underline@ =~= underline_text(start_line, end_line, start_column, end_column));
        }
        let u = red_bold(underline.as_str());
        proof {
            f6 = u@ == painted(underline@, Paint::RedBold, true);
        }
        output.append("\n     │ ");
        output.append(u.as_str());
        if start_line != end_line {
            let dots = blue("...");
            proof {
                f7 = dots@ == painted("..."@, Paint::Blue, true);
            }
            output.append("\n     │ ");
            output.append(dots.as_str());
            output.append(" (error spans lines ");
            let a = i64_text(start_line as i64);
            output.append(a.as_str());
            output.append("-");
            let b = i64_text(end_line as i64);
            output.append(b.as_str());
            output.append(")");
        }
        assert(output@ =~= report_context(span@, source_line@, f6, f7));
    } else {
        assert(output@ =~= report_context(span@, source_line@, f6, f7));
    }
    output
}

/// The reporter of errors found in one source text.
pub struct ErrorReporter {
    line_tracker: LineTracker,
}

impl ErrorReporter {
    /// The source text whose errors are reported.
    pub closed spec fn source(&self) -> Seq<char> {
        self.line_tracker.text()
    }

    /// A reporter for the source text of `line_tracker`.
    pub fn new(line_tracker: LineTracker) -> (r: Self)
        ensures
            r.source() == line_tracker.text(),
    {
        Self { line_tracker }
    }

    /// The reports of all `errors`, one after the other.
    pub fn report_errors(&self, errors: Vec<CompileError>) -> (r: String)
        ensures
            exists|parts: Seq<Seq<char>>|
                parts.len() == errors@.len() && r@ == concat_all(parts) && forall|i: int|
                    0 <= i < parts.len() ==> #[trigger] reports_error(parts[i], errors@[i]@, self.source()),
    {
        let mut output = String::new();
        let mut i: usize = 0;
        let ghost mut parts: Seq<Seq<char>> = Seq::empty();
        while i < errors.len()
            invariant
                i <= errors@.len(),
                parts.len() == i,
                output@ == concat_all(parts),
                forall|k: int| 0 <= k < i ==> #[trigger] reports_error(parts[k], errors@[k]@, self.source()),
            decreases errors.len() - i,
        {
            let formatted = match &errors[i] {
                CompileError::LexerError { message, span, help, code } => {
                    self.format_error("LEX", message.as_str(), span, opt_str(help), *code)
                },
                CompileError::SyntaxError { message, span, help, code } => {
                    self.format_error("SYNTAX", message.as_str(), span, opt_str(help), *code)
                },
                CompileError::TypeError { message, span, help, code } => {
                    self.format_error("TYPE", message.as_str(), span, opt_str(help), *code)
                },
                CompileError::IoError(message) => format_simple_error("I/O", message.as_str(), None),
            };
            proof {
                let on = choose|on: Seq<bool>| on.len() == 10 && formatted@ == report_for(errors@[i as int]@, self.source(), on);
                assert(on.len() == 10 && formatted@ == report_for(errors@[i as int]@, self.source(), on));
                let old_parts = parts;
                parts = parts.push(formatted@);
                assert(parts.drop_last() =~= old_parts);
                assert forall|k: int| 0 <= k < parts.len() implies #[trigger] reports_error(
                    parts[k],
                    errors@[k]@,
                    self.source(),
                ) by {
                    if k < old_parts.len() {
                        assert(parts[k] == old_parts[k]);
                    }
                }
            }
            output.append(formatted.as_str());
            i = i + 1;
        }
        output
    }

    /// The report of an error with a location.
    fn format_error(
        &self,
        category: &str,
        message: &str,
        span: &SourceSpan,
        help: Option<&str>,
        code: Option<ErrorCode>,
    ) -> (r: String)
        ensures
            exists|on: Seq<bool>|
                on.len() == 10 && r@ == error_report_text(
                    category@,
                    message@,
                    span@,
                    shown_line(self.source(), span@.start.spec_line()),
                    opt_str_view(help),
                    code,
                    on,
                ),
    {
        let start_line = span.start().line();
        let line_number: usize = if start_line >= 1 {
            start_line as usize
        } else {
            0
        };
        let source_line = match self.line_tracker.get_line(line_number) {
            Some(l) => l,
            None => "",
        };
        proof {
            reveal_strlit("");
            assert(source_line@ == shown_line(self.source(), span@.start.spec_line()));
            if start_line < 1 {
                assert(line_text(self.source(), start_line as int) is None);
            }
        }
        let head = heading(category, message, span, code);
        let context = source_context(span, source_line);
        let help_line = help_text(help);
        let mut output = String::new();
        output.append(head.as_str());
        output.append(context.as_str());
        output.append(help_line.as_str());
        output.append("\n");
        proof {
            let on6 = choose|on: Seq<bool>| on.len() == 6 && head@ == report_head(category@, message@, span@, code, on);
            let (f6, f7) = choose|m: bool, d: bool| context@ == report_context(span@, source_line@, m, d);
            let (f8, f9) = choose|a: bool, b: bool| help_line@ == report_help(opt_str_view(help), a, b);
            let on = on6 + seq![f6, f7, f8, f9];
            assert(on.len() == 10);
            assert(on[6] == f6 && on[7] == f7 && on[8] == f8 && on[9] == f9);
            assert(report_head(category@, message@, span@, code, on) =~= report_head(category@, message@, span@, code, on6));
            assert(output@ =~= error_report_text(
                category@,
                message@,
                span@,
                shown_line(self.source(), span@.start.spec_line()),
                opt_str_view(help),
                code,
                on,
            ));
        }
        output
    }
}

/// The view of an optional text.
pub open spec fn opt_str_view(o: Option<&str>) -> Option<Seq<char>> {
    match o {
        Some(s) => Some(s@),
        None => None,
    }
}

/// An optional owned text, borrowed.
fn opt_str(o: &Option<String>) -> (r: Option<&str>)
    ensures
        opt_str_view(r) == crate::error::errors::opt_text(*o),
{
    match o {
        Some(s) => Some(s.as_str()),
        None => None,
    }
}

} // verus!
