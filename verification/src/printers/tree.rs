//! The syntax tree drawn as an outline, one line per node or label: each
//! line is the indentation of its parent, a branch mark (`├── ` for a child
//! followed by siblings, `└── ` for the last child) and its text; children
//! are indented under a `│   ` guide when siblings follow their parent, and
//! under blanks otherwise. Each line carries the style of what it shows, in
//! which its text is painted when the outline is rendered.
use vstd::prelude::*;
use crate::printers::ast_printer::{
    binary_op_caps, format_binary_op, format_literal, format_type, format_unary_op, literal_print_text,
    type_print_text, unary_op_caps,
};
use crate::syntax::ast::model::{clone_expr, exprs_view, lemma_exprs_view, ExprView};
use crate::syntax::ast::{ElseBranch, Expr, Parameter, Stmt, VarBinding};
use crate::error::error_reporter::{paint, painted, Paint};
use crate::text::{cat2, cat3};

verus! {

/// Where a child stands among its siblings.
#[derive(Debug, Clone, Copy, PartialEq, Eq, Structural)]
pub enum BranchType {
    /// Siblings follow it.
    Middle,
    /// It is the last child.
    Last,
}

/// The branch mark of a line.
pub open spec fn mark(b: BranchType) -> Seq<char> {
    match b {
        BranchType::Middle => "├── "@,
        BranchType::Last => "└── "@,
    }
}

/// The indentation a child adds under its parent.
pub open spec fn guide(b: BranchType) -> Seq<char> {
    match b {
        BranchType::Middle => "│   "@,
        BranchType::Last => "    "@,
    }
}

/// What a line of the outline shows, by which it is styled.
#[derive(Debug, Clone, Copy, PartialEq, Eq, Structural)]
pub enum Style {
    /// A statement's kind.
    Keyword,
    /// A label that introduces the children under it.
    Structure,
    /// A unary or binary operator.
    Operator,
    /// Grouping, calls, array accesses and array literals.
    Punctuation,
    /// A literal value.
    Literal,
    /// A name, or an assignment.
    Variable,
    /// A type.
    TypeName,
    /// A remark on an empty list.
    Metadata,
}

/// A line of the outline as a value: the indentation and branch mark before
/// the text, the style of the text, and the text.
pub struct OutlineLine {
    pub prefix: Seq<char>,
    pub style: Style,
    pub text: Seq<char>,
}

/// A line of the outline, held by the printer.
pub struct StyledLine {
    pub prefix: String,
    pub style: Style,
    pub text: String,
}

impl View for StyledLine {
    type V = OutlineLine;

    open spec fn view(&self) -> OutlineLine {
        OutlineLine { prefix: self.prefix@, style: self.style, text: self.text@ }
    }
}

/// A line of the outline.
pub open spec fn line(indent: Seq<char>, b: BranchType, style: Style, text: Seq<char>) -> OutlineLine {
    OutlineLine { prefix: indent + mark(b), style, text }
}

/// The text of a line without styling.
pub open spec fn plain_line(l: OutlineLine) -> Seq<char> {
    l.prefix + l.text
}

/// The texts of strings.
pub open spec fn string_views(v: Seq<String>) -> Seq<Seq<char>> {
    v.map_values(|l: String| l@)
}

/// The texts of lines without styling.
pub open spec fn plain_lines(ls: Seq<OutlineLine>) -> Seq<Seq<char>> {
    ls.map_values(|l: OutlineLine| plain_line(l))
}

/// The indentation of the children of a line at `indent` with branch `b`.
pub open spec fn child(indent: Seq<char>, b: BranchType) -> Seq<char> {
    indent + guide(b)
}

/// The values of a list of lines.
pub open spec fn lines_view(v: Seq<StyledLine>) -> Seq<OutlineLine> {
    v.map_values(|l: StyledLine| l@)
}

/// A label line followed by the outline of `e` under it.
pub open spec fn labeled_lines(label: Seq<char>, e: ExprView, indent: Seq<char>, b: BranchType) -> Seq<OutlineLine>
    decreases e, 1int,
{
    seq![line(indent, b, Style::Structure, label)] + expr_lines(e, child(indent, b), BranchType::Last)
}

/// The outline of an expression at `indent` with branch `b`.
pub open spec fn expr_lines(e: ExprView, indent: Seq<char>, b: BranchType) -> Seq<OutlineLine>
    decreases e, 0int,
{
    let ni = child(indent, b);
    match e {
        ExprView::Binary { left, op, right, .. } => seq![line(indent, b, Style::Operator, "BinaryOp "@ + binary_op_caps(op))]
            + labeled_lines("Left:"@, *left, ni, BranchType::Middle) + labeled_lines(
            "Right:"@,
            *right,
            ni,
            BranchType::Last,
        ),
        ExprView::Unary { op, expr, .. } => seq![line(indent, b, Style::Operator, "UnaryOp "@ + unary_op_caps(op))] + labeled_lines(
            "Expr:"@,
            *expr,
            ni,
            BranchType::Last,
        ),
        ExprView::Grouping { expr, .. } => seq![line(indent, b, Style::Punctuation, "Grouping"@)] + labeled_lines(
            "Expr:"@,
            *expr,
            ni,
            BranchType::Last,
        ),
        ExprView::Literal { value, .. } => seq![line(indent, b, Style::Literal, "Literal "@ + literal_print_text(value))],
        ExprView::Variable { name, .. } => seq![line(indent, b, Style::Variable, "Variable '"@ + name + "'"@)],
        ExprView::Assign { target, value, .. } => seq![line(indent, b, Style::Variable, "Assignment"@)] + labeled_lines(
            "Target:"@,
            *target,
            ni,
            BranchType::Middle,
        ) + labeled_lines("Value:"@, *value, ni, BranchType::Last),
        ExprView::Call { callee, arguments, .. } => seq![line(indent, b, Style::Punctuation, "Function Call"@)] + labeled_lines(
            "Callee:"@,
            *callee,
            ni,
            BranchType::Middle,
        ) + seq![line(ni, BranchType::Last, Style::Structure, "Arguments:"@)] + expr_children(
            arguments,
            child(ni, BranchType::Last),
            true,
        ),
        ExprView::ArrayAccess { array, index, .. } => seq![line(indent, b, Style::Punctuation, "Array Access"@)] + labeled_lines(
            "Array:"@,
            *array,
            ni,
            BranchType::Middle,
        ) + labeled_lines("Index:"@, *index, ni, BranchType::Last),
        ExprView::ArrayLiteral { elements, .. } => seq![line(indent, b, Style::Punctuation, "Array Literal"@), line(
            ni,
            BranchType::Last, Style::Structure,
            "Elements:"@)] + expr_children(elements, child(ni, BranchType::Last), false),
    }
}

/// One child among expression children: under an `Arg:` label when
/// `as_args`, the expression itself otherwise.
pub open spec fn expr_child(e: ExprView, indent: Seq<char>, b: BranchType, as_args: bool) -> Seq<OutlineLine>
    decreases e, 2int,
{
    if as_args {
        labeled_lines("Arg:"@, e, indent, b)
    } else {
        expr_lines(e, indent, b)
    }
}

/// The children of a node, all but the last with siblings after them.
pub open spec fn expr_children(es: Seq<ExprView>, indent: Seq<char>, as_args: bool) -> Seq<OutlineLine>
    decreases es, 0int,
{
    if es.len() == 0 {
        Seq::empty()
    } else {
        middle_children(es.drop_last(), indent, as_args) + expr_child(es.last(), indent, BranchType::Last, as_args)
    }
}

/// Children that all have siblings after them.
pub open spec fn middle_children(es: Seq<ExprView>, indent: Seq<char>, as_args: bool) -> Seq<OutlineLine>
    decreases es, 0int,
{
    if es.len() == 0 {
        Seq::empty()
    } else {
        middle_children(es.drop_last(), indent, as_args) + expr_child(es.last(), indent, BranchType::Middle, as_args)
    }
}

/// In the outline of an expression, the node's own line comes first and
/// each label for a part of the node is followed, one level deeper, by the
/// outline of exactly that part: `Left:` and `Right:` the operands of a
/// binary operation, `Expr:` the operand of a unary operation or grouping,
/// `Target:` and `Value:` the sides of an assignment, `Callee:` the called
/// expression, `Array:` the accessed array and `Index:` the index. Every
/// label but the last has siblings after it.
pub proof fn law_outline_parts_follow_their_labels(e: ExprView, indent: Seq<char>, b: BranchType)
    ensures
        ({
            let ni = child(indent, b);
            let mi = child(ni, BranchType::Middle);
            let li = child(ni, BranchType::Last);
            match e {
                ExprView::Binary { left, op, right, .. } => expr_lines(e, indent, b) == seq![
                    line(indent, b, Style::Operator, "BinaryOp "@ + binary_op_caps(op)),
                    line(ni, BranchType::Middle, Style::Structure, "Left:"@),
                ] + expr_lines(*left, mi, BranchType::Last) + seq![line(ni, BranchType::Last, Style::Structure, "Right:"@)]
                    + expr_lines(*right, li, BranchType::Last),
                ExprView::Unary { op, expr, .. } => expr_lines(e, indent, b) == seq![
                    line(indent, b, Style::Operator, "UnaryOp "@ + unary_op_caps(op)),
                    line(ni, BranchType::Last, Style::Structure, "Expr:"@),
                ] + expr_lines(*expr, li, BranchType::Last),
                ExprView::Grouping { expr, .. } => expr_lines(e, indent, b) == seq![
                    line(indent, b, Style::Punctuation, "Grouping"@),
                    line(ni, BranchType::Last, Style::Structure, "Expr:"@),
                ] + expr_lines(*expr, li, BranchType::Last),
                ExprView::Assign { target, value, .. } => expr_lines(e, indent, b) == seq![
                    line(indent, b, Style::Variable, "Assignment"@),
                    line(ni, BranchType::Middle, Style::Structure, "Target:"@),
                ] + expr_lines(*target, mi, BranchType::Last) + seq![line(ni, BranchType::Last, Style::Structure, "Value:"@)]
                    + expr_lines(*value, li, BranchType::Last),
                ExprView::Call { callee, arguments, .. } => expr_lines(e, indent, b) == seq![
                    line(indent, b, Style::Punctuation, "Function Call"@),
                    line(ni, BranchType::Middle, Style::Structure, "Callee:"@),
                ] + expr_lines(*callee, mi, BranchType::Last) + seq![
                    line(ni, BranchType::Last, Style::Structure, "Arguments:"@),
                ] + expr_children(arguments, li, true),
                ExprView::ArrayAccess { array, index, .. } => expr_lines(e, indent, b) == seq![
                    line(indent, b, Style::Punctuation, "Array Access"@),
                    line(ni, BranchType::Middle, Style::Structure, "Array:"@),
                ] + expr_lines(*array, mi, BranchType::Last) + seq![line(ni, BranchType::Last, Style::Structure, "Index:"@)]
                    + expr_lines(*index, li, BranchType::Last),
                _ => true,
            }
        }),
{
}

/// Appends a line.
pub(crate) fn push_line(out: &mut Vec<StyledLine>, indent: &str, b: BranchType, st: Style, text: &str)
    ensures
        lines_view(final(out)@) == lines_view(old(out)@).push(line(indent@, b, st, text@)),
{
    let m = match b {
        BranchType::Middle => "├── ",
        BranchType::Last => "└── ",
    };
    let l = StyledLine { prefix: cat2(indent, m), style: st, text: text.to_owned() };
    let ghost before = out@;
    out.push(l);
    proof {
        assert(lines_view(out@) =~= lines_view(before).push(line(indent@, b, st, text@)));
    }
}

/// The indentation of the children of a line.
pub(crate) fn child_indent(indent: &str, b: BranchType) -> (r: String)
    ensures
        r@ == child(indent@, b),
{
    match b {
        BranchType::Middle => cat2(indent, "│   "),
        BranchType::Last => cat2(indent, "    "),
    }
}

/// Appends a label line and the outline of `e` under it.
fn push_labeled(out: &mut Vec<StyledLine>, label: &str, e: &Expr, indent: &str, b: BranchType)
    ensures
        lines_view(final(out)@) == lines_view(old(out)@) + labeled_lines(label@, e@, indent@, b),
    decreases e, 1int,
{
    push_line(out, indent, b, Style::Structure, label);
    let ci = child_indent(indent, b);
    push_expr(out, e, ci.as_str(), BranchType::Last);
    proof {
        assert(lines_view(out@) =~= lines_view(old(out)@) + labeled_lines(label@, e@, indent@, b));
    }
}

/// Appends the outline of an expression.
#[verifier::rlimit(40)]
pub(crate) fn push_expr(out: &mut Vec<StyledLine>, e: &Expr, indent: &str, b: BranchType)
    ensures
        lines_view(final(out)@) == lines_view(old(out)@) + expr_lines(e@, indent@, b),
    decreases e, 0int,
{
    let ghost start = lines_view(out@);
    let ni = child_indent(indent, b);
    match e {
        Expr::Binary { left, op, right, .. } => {
            let text = cat2("BinaryOp ", format_binary_op(*op));
            push_line(out, indent, b, Style::Operator, text.as_str());
            push_labeled(out, "Left:", left, ni.as_str(), BranchType::Middle);
            push_labeled(out, "Right:", right, ni.as_str(), BranchType::Last);
            assert(lines_view(out@) =~= start + expr_lines(e@, indent@, b));
        },
        Expr::Unary { op, expr, .. } => {
            let text = cat2("UnaryOp ", format_unary_op(*op));
            push_line(out, indent, b, Style::Operator, text.as_str());
            push_labeled(out, "Expr:", expr, ni.as_str(), BranchType::Last);
            assert(lines_view(out@) =~= start + expr_lines(e@, indent@, b));
        },
        Expr::Grouping { expr, .. } => {
            push_line(out, indent, b, Style::Punctuation, "Grouping");
            push_labeled(out, "Expr:", expr, ni.as_str(), BranchType::Last);
            assert(lines_view(out@) =~= start + expr_lines(e@, indent@, b));
        },
        Expr::Literal { value, .. } => {
            let v = format_literal(value);
            let text = cat2("Literal ", v.as_str());
            push_line(out, indent, b, Style::Literal, text.as_str());
            assert(lines_view(out@) =~= start + expr_lines(e@, indent@, b));
        },
        Expr::Variable { name, .. } => {
            let text = cat3("Variable '", name.as_str(), "'");
            push_line(out, indent, b, Style::Variable, text.as_str());
            assert(lines_view(out@) =~= start + expr_lines(e@, indent@, b));
        },
        Expr::Assign { target, value, .. } => {
            push_line(out, indent, b, Style::Variable, "Assignment");
            push_labeled(out, "Target:", target, ni.as_str(), BranchType::Middle);
            push_labeled(out, "Value:", value, ni.as_str(), BranchType::Last);
            assert(lines_view(out@) =~= start + expr_lines(e@, indent@, b));
        },
        Expr::Call { callee, arguments, .. } => {
            push_line(out, indent, b, Style::Punctuation, "Function Call");
            push_labeled(out, "Callee:", callee, ni.as_str(), BranchType::Middle);
            push_line(out, ni.as_str(), BranchType::Last, Style::Structure, "Arguments:");
            let ci = child_indent(ni.as_str(), BranchType::Last);
            push_expr_children(out, arguments, ci.as_str(), true);
            assert(lines_view(out@) =~= start + expr_lines(e@, indent@, b));
        },
        Expr::ArrayAccess { array, index, .. } => {
            push_line(out, indent, b, Style::Punctuation, "Array Access");
            push_labeled(out, "Array:", array, ni.as_str(), BranchType::Middle);
            push_labeled(out, "Index:", index, ni.as_str(), BranchType::Last);
            assert(lines_view(out@) =~= start + expr_lines(e@, indent@, b));
        },
        Expr::ArrayLiteral { elements, .. } => {
            push_line(out, indent, b, Style::Punctuation, "Array Literal");
            push_line(out, ni.as_str(), BranchType::Last, Style::Structure, "Elements:");
            let ci = child_indent(ni.as_str(), BranchType::Last);
            push_expr_children(out, elements, ci.as_str(), false);
            assert(lines_view(out@) =~= start + expr_lines(e@, indent@, b));
        },
    }
}

/// Appends one child of a list of expression children.
fn push_expr_child(out: &mut Vec<StyledLine>, e: &Expr, indent: &str, b: BranchType, as_args: bool)
    ensures
        lines_view(final(out)@) == lines_view(old(out)@) + expr_child(e@, indent@, b, as_args),
    decreases e, 2int,
{
    if as_args {
        push_labeled(out, "Arg:", e, indent, b);
    } else {
        push_expr(out, e, indent, b);
    }
}

/// Appends the children `es`, the last one marked as last.
fn push_expr_children(out: &mut Vec<StyledLine>, es: &Vec<Expr>, indent: &str, as_args: bool)
    ensures
        lines_view(final(out)@) == lines_view(old(out)@) + expr_children(exprs_view(es@), indent@, as_args),
    decreases es, 0int,
{
    let ghost start = lines_view(out@);
    let ghost vs = exprs_view(es@);
    proof {
        lemma_exprs_view(es@);
    }
    let n = es.len();
    let mut i: usize = 0;
    while i < n
        invariant
            i <= n,
            n == es@.len(),
            vs == exprs_view(es@),
            vs.len() == n,
            forall|k: int| 0 <= k < n ==> #[trigger] vs[k] == es@[k]@,
            i == 0 ==> lines_view(out@) == start,
            i < n ==> lines_view(out@) == start + middle_children(vs.subrange(0, i as int), indent@, as_args),
            i == n && n > 0 ==> lines_view(out@) == start + expr_children(vs, indent@, as_args),
        decreases n - i,
    {
        let ghost before = lines_view(out@);
        let ghost prefix = vs.subrange(0, i as int);
        let ghost next = vs.subrange(0, i + 1);
        proof {
            assert(next.drop_last() =~= prefix);
            assert(next.last() == vs[i as int]);
        }
        if i + 1 == n {
            push_expr_child(out, &es[i], indent, BranchType::Last, as_args);
            proof {
                assert(next =~= vs);
                assert(lines_view(out@) =~= start + expr_children(vs, indent@, as_args));
            }
        } else {
            push_expr_child(out, &es[i], indent, BranchType::Middle, as_args);
            proof {
                assert(lines_view(out@) =~= start + middle_children(next, indent@, as_args));
            }
        }
        i = i + 1;
    }
    proof {
        if n == 0 {
            assert(lines_view(out@) =~= start + expr_children(vs, indent@, as_args));
        }
    }
}

/// The outline of an expression, one styled line per node or label.
pub fn expr_outline(expr: &Expr) -> (r: Vec<StyledLine>)
    ensures
        lines_view(r@) == expr_lines(expr@, Seq::empty(), BranchType::Last),
{
    let mut out: Vec<StyledLine> = Vec::new();
    let root = String::new();
    proof {
        assert(lines_view(out@) =~= Seq::<OutlineLine>::empty());
    }
    push_expr(&mut out, expr, root.as_str(), BranchType::Last);
    proof {
        assert(lines_view(out@) =~= expr_lines(expr@, Seq::empty(), BranchType::Last));
    }
    out
}

/// In the outline of a statement, the statement's own line comes first and
/// each label for a part of it is followed, one level deeper, by the outline
/// of exactly that part: the expression of an expression statement and of a
/// `return` under `Expr:` and `Value:`, the condition of an `if` or a
/// `while` under `Condition:`, the branches of an `if` under `Then:` and
/// `Else:`, and the body of a loop under `Body:`; the statements of a block
/// follow its line in order, each the last child when it is the last one.
pub proof fn law_statement_outline_parts(s: Stmt, indent: Seq<char>, b: BranchType)
    ensures
        ({
            let ni = child(indent, b);
            let mi = child(ni, BranchType::Middle);
            let li = child(ni, BranchType::Last);
            match s {
                Stmt::Expression { expr } => stmt_lines(s, indent, b) == seq![
                    line(indent, b, Style::Keyword, "Expression"@),
                    line(ni, BranchType::Last, Style::Structure, "Expr:"@),
                ] + expr_lines(expr@, li, BranchType::Last),
                Stmt::Return { value: Some(e), .. } => stmt_lines(s, indent, b) == seq![
                    line(indent, b, Style::Keyword, "Return"@),
                    line(ni, BranchType::Last, Style::Structure, "Value:"@),
                ] + expr_lines(e@, li, BranchType::Last),
                Stmt::Return { value: None, .. } => stmt_lines(s, indent, b) == seq![
                    line(indent, b, Style::Keyword, "Return"@),
                ],
                Stmt::While { condition, body, .. } => stmt_lines(s, indent, b) == seq![
                    line(indent, b, Style::Keyword, "While"@),
                    line(ni, BranchType::Middle, Style::Structure, "Condition:"@),
                ] + expr_lines(condition@, mi, BranchType::Last) + body_label_lines("Body:"@, *body, ni, BranchType::Last),
                Stmt::If { condition, then_branch, else_branch: ElseBranch::Absent, .. } => stmt_lines(s, indent, b)
                    == seq![
                    line(indent, b, Style::Keyword, "If"@),
                    line(ni, BranchType::Middle, Style::Structure, "Condition:"@),
                ] + expr_lines(condition@, mi, BranchType::Last) + body_label_lines(
                    "Then:"@,
                    *then_branch,
                    ni,
                    BranchType::Last,
                ),
                Stmt::If { condition, then_branch, else_branch: ElseBranch::Block(x), .. } => stmt_lines(s, indent, b)
                    == seq![
                    line(indent, b, Style::Keyword, "If"@),
                    line(ni, BranchType::Middle, Style::Structure, "Condition:"@),
                ] + expr_lines(condition@, mi, BranchType::Last) + body_label_lines(
                    "Then:"@,
                    *then_branch,
                    ni,
                    BranchType::Middle,
                ) + body_label_lines("Else:"@, *x, ni, BranchType::Last),
                Stmt::Block { statements, .. } => statements@.len() > 0 ==> stmt_lines(s, indent, b) == seq![
                    line(indent, b, Style::Keyword, "Block"@),
                ] + middle_stmts(statements@.drop_last(), ni) + stmt_lines(statements@.last(), ni, BranchType::Last),
                Stmt::Break { .. } => stmt_lines(s, indent, b) == seq![line(indent, b, Style::Keyword, "Break"@)],
                Stmt::Continue { .. } => stmt_lines(s, indent, b) == seq![line(indent, b, Style::Keyword, "Continue"@)],
                _ => true,
            }
        }),
{
    let ni = child(indent, b);
    match s {
        Stmt::Block { statements, .. } => {
            if statements@.len() > 0 {
                assert(stmt_children(statements@, ni) == middle_stmts(statements@.drop_last(), ni) + stmt_lines(
                    statements@.last(),
                    ni,
                    BranchType::Last,
                ));
                assert(stmt_lines(s, indent, b) == seq![line(indent, b, Style::Keyword, "Block"@)] + stmt_children(
                    statements@,
                    ni,
                ));
                assert(stmt_lines(s, indent, b) =~= seq![line(indent, b, Style::Keyword, "Block"@)] + middle_stmts(
                    statements@.drop_last(),
                    ni,
                ) + stmt_lines(statements@.last(), ni, BranchType::Last));
            }
        },
        Stmt::If { condition, then_branch, else_branch, .. } => {
            let head = seq![
                line(indent, b, Style::Keyword, "If"@),
                line(ni, BranchType::Middle, Style::Structure, "Condition:"@),
            ];
            let cond = expr_lines(condition@, child(ni, BranchType::Middle), BranchType::Last);
            match else_branch {
                ElseBranch::Absent => {
                    let t = body_label_lines("Then:"@, *then_branch, ni, BranchType::Last);
                    assert(stmt_lines(s, indent, b) =~= head + cond + t + Seq::empty());
                    assert(head + cond + t + Seq::<OutlineLine>::empty() =~= head + cond + t);
                },
                _ => {},
            }
        },
        Stmt::Return { value, .. } => {
            match value {
                None => {
                    assert(stmt_lines(s, indent, b) =~= seq![line(indent, b, Style::Keyword, "Return"@)] + Seq::empty());
                },
                _ => {},
            }
        },
        _ => {},
    }
}

/// A labelled body that is not an empty block shows its label and then,
/// one level deeper, the statements of a block in order, or the statement
/// itself.
pub proof fn law_body_under_its_label(label: Seq<char>, body: Stmt, indent: Seq<char>, b: BranchType)
    ensures
        !(body matches Stmt::Block { statements, .. } && statements@.len() == 0) ==> body_label_lines(
            label,
            body,
            indent,
            b,
        ) == seq![line(indent, b, Style::Structure, label)] + match body {
            Stmt::Block { statements, .. } => stmt_children(statements@, child(indent, b)),
            _ => stmt_lines(body, child(indent, b), BranchType::Last),
        },
        (body matches Stmt::Block { statements, .. } && statements@.len() == 0) ==> body_label_lines(
            label,
            body,
            indent,
            b,
        ) == seq![line(indent, b, Style::Structure, label + " (empty)"@)],
{
}

/// The views of the initializers that the bindings `bs` have, in order.
pub open spec fn initializer_views(bs: Seq<VarBinding>) -> Seq<ExprView>
    decreases bs.len(),
{
    if bs.len() == 0 {
        Seq::empty()
    } else {
        match bs.last().initializer {
            Some(e) => initializer_views(bs.drop_last()).push(e@),
            None => initializer_views(bs.drop_last()),
        }
    }
}

/// The names of bindings as children, all but the last with siblings after them.
pub open spec fn name_children(bs: Seq<VarBinding>, indent: Seq<char>) -> Seq<OutlineLine> {
    if bs.len() == 0 {
        Seq::empty()
    } else {
        middle_names(bs.drop_last(), indent).push(line(indent, BranchType::Last, Style::Variable, bs.last().name@))
    }
}

/// Binding names that all have siblings after them.
pub open spec fn middle_names(bs: Seq<VarBinding>, indent: Seq<char>) -> Seq<OutlineLine>
    decreases bs.len(),
{
    if bs.len() == 0 {
        Seq::empty()
    } else {
        middle_names(bs.drop_last(), indent).push(line(indent, BranchType::Middle, Style::Variable, bs.last().name@))
    }
}

/// One parameter: its name, and its type under it.
pub open spec fn param_lines(p: Parameter, indent: Seq<char>, b: BranchType) -> Seq<OutlineLine> {
    seq![
        line(indent, b, Style::Structure, "Parameter '"@ + p.name@ + "'"@),
        line(child(indent, b), BranchType::Last, Style::TypeName, "Type: "@ + type_print_text(p.type_annotation)),
    ]
}

/// Parameters as children, all but the last with siblings after them.
pub open spec fn param_children(ps: Seq<Parameter>, indent: Seq<char>) -> Seq<OutlineLine> {
    if ps.len() == 0 {
        Seq::empty()
    } else {
        middle_params(ps.drop_last(), indent) + param_lines(ps.last(), indent, BranchType::Last)
    }
}

/// Parameters that all have siblings after them.
pub open spec fn middle_params(ps: Seq<Parameter>, indent: Seq<char>) -> Seq<OutlineLine>
    decreases ps.len(),
{
    if ps.len() == 0 {
        Seq::empty()
    } else {
        middle_params(ps.drop_last(), indent) + param_lines(ps.last(), indent, BranchType::Middle)
    }
}

/// The outline of a variable declaration at `indent` with branch `b`: its
/// kind, its variables, its type and, when some variable has one, the
/// initializers.
pub open spec fn declaration_lines(
    bindings: Seq<VarBinding>,
    ty: crate::syntax::ast::Type,
    is_mutable: bool,
    indent: Seq<char>,
    b: BranchType,
) -> Seq<OutlineLine> {
    let ni = child(indent, b);
    let vi = child(ni, BranchType::Middle);
    let inits = initializer_views(bindings);
    let tb = if inits.len() > 0 {
        BranchType::Middle
    } else {
        BranchType::Last
    };
    seq![
        line(indent, b, Style::Keyword, if is_mutable {
            "VarDeclaration"@
        } else {
            "ConstDeclaration"@
        }),
        line(ni, BranchType::Middle, Style::Structure, "Variables:"@),
    ] + (if bindings.len() == 0 {
        seq![line(vi, BranchType::Last, Style::Metadata, "(none)"@)]
    } else {
        name_children(bindings, vi)
    }) + seq![line(ni, tb, Style::Structure, "Type:"@), line(child(ni, tb), BranchType::Last, Style::TypeName, type_print_text(ty))] + (if inits.len()
        > 0 {
        seq![line(ni, BranchType::Last, Style::Structure, "Initializers:"@)] + expr_children(inits, child(ni, BranchType::Last), false)
    } else {
        Seq::empty()
    })
}

/// The outline of a statement at `indent` with branch `b`.
pub open spec fn stmt_lines(s: Stmt, indent: Seq<char>, b: BranchType) -> Seq<OutlineLine>
    decreases s, 0int,
{
    let ni = child(indent, b);
    match s {
        Stmt::Expression { expr } => seq![line(indent, b, Style::Keyword, "Expression"@), line(ni, BranchType::Last, Style::Structure, "Expr:"@)]
            + expr_lines(expr@, child(ni, BranchType::Last), BranchType::Last),
        Stmt::VarDeclaration { bindings, type_annotation, is_mutable, .. } => declaration_lines(
            bindings@,
            type_annotation,
            is_mutable,
            indent,
            b,
        ),
        Stmt::Function { name, parameters, return_type, body, .. } => seq![
            line(indent, b, Style::Keyword, "Function"@),
            line(ni, BranchType::Middle, Style::Structure, "Name:"@),
            line(child(ni, BranchType::Middle), BranchType::Last, Style::Variable, name@),
        ] + (if parameters@.len() == 0 {
            seq![line(ni, BranchType::Middle, Style::Structure, "Parameters: (none)"@)]
        } else {
            seq![line(ni, BranchType::Middle, Style::Structure, "Parameters:"@)] + param_children(
                parameters@,
                child(ni, BranchType::Middle),
            )
        }) + seq![
            line(ni, BranchType::Middle, Style::Structure, "Return Type:"@),
            line(child(ni, BranchType::Middle), BranchType::Last, Style::TypeName, type_print_text(return_type)),
        ] + body_label_lines("Body:"@, *body, ni, BranchType::Last),
        Stmt::If { condition, then_branch, else_branch, .. } => seq![
            line(indent, b, Style::Keyword, "If"@),
            line(ni, BranchType::Middle, Style::Structure, "Condition:"@),
        ] + expr_lines(condition@, child(ni, BranchType::Middle), BranchType::Last) + body_label_lines(
            "Then:"@,
            *then_branch,
            ni,
            if else_branch is Absent {
                BranchType::Last
            } else {
                BranchType::Middle
            },
        ) + match else_branch {
            ElseBranch::Absent => Seq::empty(),
            ElseBranch::Block(x) => body_label_lines("Else:"@, *x, ni, BranchType::Last),
            ElseBranch::ElseIf(x) => body_label_lines("Else:"@, *x, ni, BranchType::Last),
        },
        Stmt::MainFunction { body, .. } => seq![line(indent, b, Style::Keyword, "MainFunction"@)] + body_lines(*body, ni),
        Stmt::Block { statements, .. } => if statements@.len() == 0 {
            seq![line(indent, b, Style::Keyword, "Block: (empty)"@)]
        } else {
            seq![line(indent, b, Style::Keyword, "Block"@)] + stmt_children(statements@, ni)
        },
        Stmt::Return { value, .. } => seq![line(indent, b, Style::Keyword, "Return"@)] + match value {
            Some(e) => seq![line(ni, BranchType::Last, Style::Structure, "Value:"@)] + expr_lines(
                e@,
                child(ni, BranchType::Last),
                BranchType::Last,
            ),
            None => Seq::empty(),
        },
        Stmt::While { condition, body, .. } => seq![
            line(indent, b, Style::Keyword, "While"@),
            line(ni, BranchType::Middle, Style::Structure, "Condition:"@),
        ] + expr_lines(condition@, child(ni, BranchType::Middle), BranchType::Last) + body_label_lines(
            "Body:"@,
            *body,
            ni,
            BranchType::Last,
        ),
        Stmt::For { initializer, condition, increment, body, .. } => seq![line(indent, b, Style::Keyword, "For"@)] + match initializer {
            Some(x) => seq![line(ni, BranchType::Middle, Style::Structure, "Initializer:"@)] + stmt_lines(
                *x,
                child(ni, BranchType::Middle),
                BranchType::Last,
            ),
            None => Seq::empty(),
        } + match condition {
            Some(c) => {
                let cb = if increment is Some {
                    BranchType::Middle
                } else {
                    BranchType::Last
                };
                seq![line(ni, cb, Style::Structure, "Condition:"@)] + expr_lines(c@, child(ni, cb), BranchType::Last)
            },
            None => Seq::empty(),
        } + match increment {
            Some(x) => seq![line(ni, BranchType::Middle, Style::Structure, "Increment:"@)] + expr_lines(
                x@,
                child(ni, BranchType::Middle),
                BranchType::Last,
            ),
            None => Seq::empty(),
        } + body_label_lines("Body:"@, *body, ni, BranchType::Last),
        Stmt::Break { .. } => seq![line(indent, b, Style::Keyword, "Break"@)],
        Stmt::Continue { .. } => seq![line(indent, b, Style::Keyword, "Continue"@)],
    }
}

/// The outline of a body: the statements of a block as children (or
/// `(empty)`), any other statement as the last child.
pub open spec fn body_lines(s: Stmt, indent: Seq<char>) -> Seq<OutlineLine>
    decreases s, 1int,
{
    match s {
        Stmt::Block { statements, .. } => if statements@.len() == 0 {
            seq![line(indent, BranchType::Last, Style::Metadata, "(empty)"@)]
        } else {
            stmt_children(statements@, indent)
        },
        _ => stmt_lines(s, indent, BranchType::Last),
    }
}

/// A labelled body: the label with ` (empty)` for an empty block, or the
/// label and the body under it.
pub open spec fn body_label_lines(label: Seq<char>, body: Stmt, indent: Seq<char>, b: BranchType) -> Seq<OutlineLine>
    decreases body, 2int,
{
    if body matches Stmt::Block { statements, .. } && statements@.len() == 0 {
        seq![line(indent, b, Style::Structure, label + " (empty)"@)]
    } else {
        seq![line(indent, b, Style::Structure, label)] + body_lines(body, child(indent, b))
    }
}

/// Statements as children, all but the last with siblings after them.
pub open spec fn stmt_children(ss: Seq<Stmt>, indent: Seq<char>) -> Seq<OutlineLine>
    decreases ss, 0int,
{
    if ss.len() == 0 {
        Seq::empty()
    } else {
        middle_stmts(ss.drop_last(), indent) + stmt_lines(ss.last(), indent, BranchType::Last)
    }
}

/// Statements that all have siblings after them.
pub open spec fn middle_stmts(ss: Seq<Stmt>, indent: Seq<char>) -> Seq<OutlineLine>
    decreases ss, 0int,
{
    if ss.len() == 0 {
        Seq::empty()
    } else {
        middle_stmts(ss.drop_last(), indent) + stmt_lines(ss.last(), indent, BranchType::Middle)
    }
}

/// Appending an expression's view to a list of views.
proof fn lemma_exprs_view_push(s: Seq<Expr>, x: Expr)
    ensures
        exprs_view(s.push(x)) == exprs_view(s).push(x@),
{
    lemma_exprs_view(s);
    lemma_exprs_view(s.push(x));
    assert(exprs_view(s.push(x)) =~= exprs_view(s).push(x@));
}

/// The initializers of `bindings`, copied, in order.
fn initializer_list(bindings: &Vec<VarBinding>) -> (r: Vec<Expr>)
    ensures
        exprs_view(r@) == initializer_views(bindings@),
{
    let mut out: Vec<Expr> = Vec::new();
    let mut i: usize = 0;
    while i < bindings.len()
        invariant
            i <= bindings@.len(),
            exprs_view(out@) == initializer_views(bindings@.subrange(0, i as int)),
        decreases bindings.len() - i,
    {
        let ghost prefix = bindings@.subrange(0, i + 1);
        proof {
            assert(prefix.drop_last() =~= bindings@.subrange(0, i as int));
            assert(prefix.last() == bindings@[i as int]);
        }
        match &bindings[i].initializer {
            Some(e) => {
                let ghost before = out@;
                let c = clone_expr(e);
                out.push(c);
                proof {
                    lemma_exprs_view_push(before, c);
                }
            },
            None => {},
        }
        i = i + 1;
    }
    assert(bindings@.subrange(0, bindings@.len() as int) =~= bindings@);
    out
}

/// Appends the names of `bindings` as children.
fn push_names(out: &mut Vec<StyledLine>, bindings: &Vec<VarBinding>, indent: &str)
    ensures
        lines_view(final(out)@) == lines_view(old(out)@) + name_children(bindings@, indent@),
{
    let ghost start = lines_view(out@);
    let n = bindings.len();
    let mut i: usize = 0;
    while i < n
        invariant
            i <= n,
            n == bindings@.len(),
            i == 0 ==> lines_view(out@) == start,
            i < n ==> lines_view(out@) == start + middle_names(bindings@.subrange(0, i as int), indent@),
            i == n && n > 0 ==> lines_view(out@) == start + name_children(bindings@, indent@),
        decreases n - i,
    {
        let ghost next = bindings@.subrange(0, i + 1);
        proof {
            assert(next.drop_last() =~= bindings@.subrange(0, i as int));
            assert(next.last() == bindings@[i as int]);
        }
        if i + 1 == n {
            push_line(out, indent, BranchType::Last, Style::Variable, bindings[i].name.as_str());
            proof {
                assert(next =~= bindings@);
                assert(lines_view(out@) =~= start + name_children(bindings@, indent@));
            }
        } else {
            push_line(out, indent, BranchType::Middle, Style::Variable, bindings[i].name.as_str());
            proof {
                assert(lines_view(out@) =~= start + middle_names(next, indent@));
            }
        }
        i = i + 1;
    }
    proof {
        if n == 0 {
            assert(lines_view(out@) =~= start + name_children(bindings@, indent@));
        }
    }
}

/// Appends one parameter: its name, and its type under it.
fn push_param(out: &mut Vec<StyledLine>, p: &Parameter, indent: &str, b: BranchType)
    ensures
        lines_view(final(out)@) == lines_view(old(out)@) + param_lines(*p, indent@, b),
{
    let ghost start = lines_view(out@);
    let name = cat3("Parameter '", p.name.as_str(), "'");
    push_line(out, indent, b, Style::Structure, name.as_str());
    let ci = child_indent(indent, b);
    let t = format_type(&p.type_annotation);
    let text = cat2("Type: ", t.as_str());
    push_line(out, ci.as_str(), BranchType::Last, Style::TypeName, text.as_str());
    proof {
        assert(lines_view(out@) =~= start + param_lines(*p, indent@, b));
    }
}

/// Appends the parameters as children.
fn push_params(out: &mut Vec<StyledLine>, ps: &Vec<Parameter>, indent: &str)
    ensures
        lines_view(final(out)@) == lines_view(old(out)@) + param_children(ps@, indent@),
{
    let ghost start = lines_view(out@);
    let n = ps.len();
    let mut i: usize = 0;
    while i < n
        invariant
            i <= n,
            n == ps@.len(),
            i == 0 ==> lines_view(out@) == start,
            i < n ==> lines_view(out@) == start + middle_params(ps@.subrange(0, i as int), indent@),
            i == n && n > 0 ==> lines_view(out@) == start + param_children(ps@, indent@),
        decreases n - i,
    {
        let ghost next = ps@.subrange(0, i + 1);
        proof {
            assert(next.drop_last() =~= ps@.subrange(0, i as int));
            assert(next.last() == ps@[i as int]);
        }
        if i + 1 == n {
            push_param(out, &ps[i], indent, BranchType::Last);
            proof {
                assert(next =~= ps@);
                assert(lines_view(out@) =~= start + param_children(ps@, indent@));
            }
        } else {
            push_param(out, &ps[i], indent, BranchType::Middle);
            proof {
                assert(lines_view(out@) =~= start + middle_params(next, indent@));
            }
        }
        i = i + 1;
    }
    proof {
        if n == 0 {
            assert(lines_view(out@) =~= start + param_children(ps@, indent@));
        }
    }
}

/// Appends the outline of a variable declaration.
fn push_declaration(
    out: &mut Vec<StyledLine>,
    bindings: &Vec<VarBinding>,
    ty: &crate::syntax::ast::Type,
    is_mutable: bool,
    indent: &str,
    b: BranchType,
)
    ensures
        lines_view(final(out)@) == lines_view(old(out)@) + declaration_lines(bindings@, *ty, is_mutable, indent@, b),
{
    let ghost start = lines_view(out@);
    let ni = child_indent(indent, b);
    let vi = child_indent(ni.as_str(), BranchType::Middle);
    push_line(out, indent, b, Style::Keyword, if is_mutable {
        "VarDeclaration"
    } else {
        "ConstDeclaration"
    });
    push_line(out, ni.as_str(), BranchType::Middle, Style::Structure, "Variables:");
    if bindings.len() == 0 {
        push_line(out, vi.as_str(), BranchType::Last, Style::Metadata, "(none)");
    } else {
        push_names(out, bindings, vi.as_str());
    }
    let inits = initializer_list(bindings);
    let has = inits.len() > 0;
    proof {
        lemma_exprs_view(inits@);
    }
    let tb = if has {
        BranchType::Middle
    } else {
        BranchType::Last
    };
    push_line(out, ni.as_str(), tb, Style::Structure, "Type:");
    let ti = child_indent(ni.as_str(), tb);
    let t = format_type(ty);
    push_line(out, ti.as_str(), BranchType::Last, Style::TypeName, t.as_str());
    if has {
        push_line(out, ni.as_str(), BranchType::Last, Style::Structure, "Initializers:");
        let ii = child_indent(ni.as_str(), BranchType::Last);
        push_expr_children(out, &inits, ii.as_str(), false);
    }
    proof {
        assert(lines_view(out@) =~= start + declaration_lines(bindings@, *ty, is_mutable, indent@, b));
    }
}

/// Appends a labelled body.
fn push_body_label(out: &mut Vec<StyledLine>, label: &str, body: &Stmt, indent: &str, b: BranchType)
    ensures
        lines_view(final(out)@) == lines_view(old(out)@) + body_label_lines(label@, *body, indent@, b),
    decreases body, 3int,
{
    let ghost start = lines_view(out@);
    let empty_block = match body {
        Stmt::Block { statements, .. } => statements.len() == 0,
        _ => false,
    };
    if empty_block {
        let text = cat2(label, " (empty)");
        push_line(out, indent, b, Style::Structure, text.as_str());
    } else {
        push_line(out, indent, b, Style::Structure, label);
        let ci = child_indent(indent, b);
        push_body(out, body, ci.as_str());
    }
    proof {
        assert(lines_view(out@) =~= start + body_label_lines(label@, *body, indent@, b));
    }
}

/// Appends the outline of a body.
fn push_body(out: &mut Vec<StyledLine>, body: &Stmt, indent: &str)
    ensures
        lines_view(final(out)@) == lines_view(old(out)@) + body_lines(*body, indent@),
    decreases body, 2int,
{
    let ghost start = lines_view(out@);
    match body {
        Stmt::Block { statements, .. } => {
            if statements.len() == 0 {
                push_line(out, indent, BranchType::Last, Style::Metadata, "(empty)");
            } else {
                push_stmt_children(out, statements, indent);
            }
        },
        _ => push_stmt(out, body, indent, BranchType::Last),
    }
    proof {
        assert(lines_view(out@) =~= start + body_lines(*body, indent@));
    }
}

/// Appends the statements as children, the last one marked as last.
fn push_stmt_children(out: &mut Vec<StyledLine>, ss: &Vec<Stmt>, indent: &str)
    ensures
        lines_view(final(out)@) == lines_view(old(out)@) + stmt_children(ss@, indent@),
    decreases ss, 0int,
{
    let ghost start = lines_view(out@);
    let n = ss.len();
    let mut i: usize = 0;
    while i < n
        invariant
            i <= n,
            n == ss@.len(),
            i == 0 ==> lines_view(out@) == start,
            i < n ==> lines_view(out@) == start + middle_stmts(ss@.subrange(0, i as int), indent@),
            i == n && n > 0 ==> lines_view(out@) == start + stmt_children(ss@, indent@),
        decreases n - i,
    {
        let ghost next = ss@.subrange(0, i + 1);
        proof {
            assert(next.drop_last() =~= ss@.subrange(0, i as int));
            assert(next.last() == ss@[i as int]);
        }
        if i + 1 == n {
            push_stmt(out, &ss[i], indent, BranchType::Last);
            proof {
                assert(next =~= ss@);
                assert(lines_view(out@) =~= start + stmt_children(ss@, indent@));
            }
        } else {
            push_stmt(out, &ss[i], indent, BranchType::Middle);
            proof {
                assert(lines_view(out@) =~= start + middle_stmts(next, indent@));
            }
        }
        i = i + 1;
    }
    proof {
        if n == 0 {
            assert(lines_view(out@) =~= start + stmt_children(ss@, indent@));
        }
    }
}

/// Appends the outline of a statement of the kind function.
#[verifier::rlimit(40)]
fn push_function_stmt(out: &mut Vec<StyledLine>, s: &Stmt, indent: &str, b: BranchType)
    requires
        s is Function,
    ensures
        lines_view(final(out)@) == lines_view(old(out)@) + stmt_lines(*s, indent@, b),
    decreases s, 0int,
{
    let ghost start = lines_view(out@);
    let ni = child_indent(indent, b);
    match s {
        Stmt::Function { name, parameters, return_type, body, .. } => {
            push_line(out, indent, b, Style::Keyword, "Function");
            push_line(out, ni.as_str(), BranchType::Middle, Style::Structure, "Name:");
            let mi = child_indent(ni.as_str(), BranchType::Middle);
            push_line(out, mi.as_str(), BranchType::Last, Style::Variable, name.as_str());
            if parameters.len() == 0 {
                push_line(out, ni.as_str(), BranchType::Middle, Style::Structure, "Parameters: (none)");
            } else {
                push_line(out, ni.as_str(), BranchType::Middle, Style::Structure, "Parameters:");
                push_params(out, parameters, mi.as_str());
            }
            push_line(out, ni.as_str(), BranchType::Middle, Style::Structure, "Return Type:");
            let t = format_type(return_type);
            push_line(out, mi.as_str(), BranchType::Last, Style::TypeName, t.as_str());
            push_body_label(out, "Body:", body, ni.as_str(), BranchType::Last);
            assert(lines_view(out@) =~= start + stmt_lines(*s, indent@, b));
        },
        _ => {},
    }
}

/// Appends the outline of a statement of the kind if.
#[verifier::rlimit(40)]
fn push_if_stmt(out: &mut Vec<StyledLine>, s: &Stmt, indent: &str, b: BranchType)
    requires
        s is If,
    ensures
        lines_view(final(out)@) == lines_view(old(out)@) + stmt_lines(*s, indent@, b),
    decreases s, 0int,
{
    let ghost start = lines_view(out@);
    let ni = child_indent(indent, b);
    match s {
        Stmt::If { condition, then_branch, else_branch, .. } => {
            push_line(out, indent, b, Style::Keyword, "If");
            push_line(out, ni.as_str(), BranchType::Middle, Style::Structure, "Condition:");
            let ci = child_indent(ni.as_str(), BranchType::Middle);
            push_expr(out, condition, ci.as_str(), BranchType::Last);
            let tb = match else_branch {
                ElseBranch::Absent => BranchType::Last,
                _ => BranchType::Middle,
            };
            push_body_label(out, "Then:", then_branch, ni.as_str(), tb);
            match else_branch {
                ElseBranch::Absent => {},
                ElseBranch::Block(x) => push_body_label(out, "Else:", x, ni.as_str(), BranchType::Last),
                ElseBranch::ElseIf(x) => push_body_label(out, "Else:", x, ni.as_str(), BranchType::Last),
            }
            assert(lines_view(out@) =~= start + stmt_lines(*s, indent@, b));
        },
        _ => {},
    }
}

/// Appends the outline of a statement of the kind for.
#[verifier::rlimit(40)]
fn push_for_stmt(out: &mut Vec<StyledLine>, s: &Stmt, indent: &str, b: BranchType)
    requires
        s is For,
    ensures
        lines_view(final(out)@) == lines_view(old(out)@) + stmt_lines(*s, indent@, b),
    decreases s, 0int,
{
    let ghost start = lines_view(out@);
    let ni = child_indent(indent, b);
    match s {
        Stmt::For { initializer, condition, increment, body, .. } => {
            push_line(out, indent, b, Style::Keyword, "For");
            match initializer {
                Some(x) => {
                    push_line(out, ni.as_str(), BranchType::Middle, Style::Structure, "Initializer:");
                    let xi = child_indent(ni.as_str(), BranchType::Middle);
                    push_stmt(out, x, xi.as_str(), BranchType::Last);
                },
                None => {},
            }
            match condition {
                Some(c) => {
                    let cb = match increment {
                        Some(_) => BranchType::Middle,
                        None => BranchType::Last,
                    };
                    push_line(out, ni.as_str(), cb, Style::Structure, "Condition:");
                    let ci = child_indent(ni.as_str(), cb);
                    push_expr(out, c, ci.as_str(), BranchType::Last);
                },
                None => {},
            }
            match increment {
                Some(x) => {
                    push_line(out, ni.as_str(), BranchType::Middle, Style::Structure, "Increment:");
                    let xi = child_indent(ni.as_str(), BranchType::Middle);
                    push_expr(out, x, xi.as_str(), BranchType::Last);
                },
                None => {},
            }
            push_body_label(out, "Body:", body, ni.as_str(), BranchType::Last);
            assert(lines_view(out@) =~= start + stmt_lines(*s, indent@, b));
        },
        _ => {},
    }
}

/// Appends the outline of a statement of the kind other.
#[verifier::rlimit(40)]
fn push_other_stmt(out: &mut Vec<StyledLine>, s: &Stmt, indent: &str, b: BranchType)
    requires
        !(s is Function || s is If || s is For || s is VarDeclaration),
    ensures
        lines_view(final(out)@) == lines_view(old(out)@) + stmt_lines(*s, indent@, b),
    decreases s, 0int,
{
    let ghost start = lines_view(out@);
    let ni = child_indent(indent, b);
    match s {
        Stmt::Expression { expr } => {
            push_line(out, indent, b, Style::Keyword, "Expression");
            push_line(out, ni.as_str(), BranchType::Last, Style::Structure, "Expr:");
            let ei = child_indent(ni.as_str(), BranchType::Last);
            push_expr(out, expr, ei.as_str(), BranchType::Last);
            assert(lines_view(out@) =~= start + stmt_lines(*s, indent@, b));
        },
        Stmt::MainFunction { body, .. } => {
            push_line(out, indent, b, Style::Keyword, "MainFunction");
            push_body(out, body, ni.as_str());
            assert(lines_view(out@) =~= start + stmt_lines(*s, indent@, b));
        },
        Stmt::Block { statements, .. } => {
            if statements.len() == 0 {
                push_line(out, indent, b, Style::Keyword, "Block: (empty)");
            } else {
                push_line(out, indent, b, Style::Keyword, "Block");
                push_stmt_children(out, statements, ni.as_str());
            }
            assert(lines_view(out@) =~= start + stmt_lines(*s, indent@, b));
        },
        Stmt::Return { value, .. } => {
            push_line(out, indent, b, Style::Keyword, "Return");
            match value {
                Some(e) => {
                    push_line(out, ni.as_str(), BranchType::Last, Style::Structure, "Value:");
                    let vi = child_indent(ni.as_str(), BranchType::Last);
                    push_expr(out, e, vi.as_str(), BranchType::Last);
                },
                None => {},
            }
            assert(lines_view(out@) =~= start + stmt_lines(*s, indent@, b));
        },
        Stmt::While { condition, body, .. } => {
            push_line(out, indent, b, Style::Keyword, "While");
            push_line(out, ni.as_str(), BranchType::Middle, Style::Structure, "Condition:");
            let ci = child_indent(ni.as_str(), BranchType::Middle);
            push_expr(out, condition, ci.as_str(), BranchType::Last);
            push_body_label(out, "Body:", body, ni.as_str(), BranchType::Last);
            assert(lines_view(out@) =~= start + stmt_lines(*s, indent@, b));
        },
        Stmt::Break { .. } => {
            push_line(out, indent, b, Style::Keyword, "Break");
            assert(lines_view(out@) =~= start + stmt_lines(*s, indent@, b));
        },
        Stmt::Continue { .. } => {
            push_line(out, indent, b, Style::Keyword, "Continue");
            assert(lines_view(out@) =~= start + stmt_lines(*s, indent@, b));
        },
        _ => {},
    }
}

/// Appends the outline of a statement.
fn push_stmt(out: &mut Vec<StyledLine>, s: &Stmt, indent: &str, b: BranchType)
    ensures
        lines_view(final(out)@) == lines_view(old(out)@) + stmt_lines(*s, indent@, b),
    decreases s, 1int,
{
    match s {
        Stmt::VarDeclaration { bindings, type_annotation, is_mutable, .. } => {
            push_declaration(out, bindings, type_annotation, *is_mutable, indent, b);
        },
        Stmt::Function { .. } => push_function_stmt(out, s, indent, b),
        Stmt::If { .. } => push_if_stmt(out, s, indent, b),
        Stmt::For { .. } => push_for_stmt(out, s, indent, b),
        _ => push_other_stmt(out, s, indent, b),
    }
}

/// The outline of a statement, one styled line per node or label.
pub fn stmt_outline(stmt: &Stmt) -> (r: Vec<StyledLine>)
    ensures
        lines_view(r@) == stmt_lines(*stmt, Seq::empty(), BranchType::Last),
{
    let mut out: Vec<StyledLine> = Vec::new();
    let root = String::new();
    proof {
        assert(lines_view(out@) =~= Seq::<OutlineLine>::empty());
    }
    push_stmt(&mut out, stmt, root.as_str(), BranchType::Last);
    proof {
        assert(lines_view(out@) =~= stmt_lines(*stmt, Seq::empty(), BranchType::Last));
    }
    out
}

/// The texts of `v` without styling.
fn plain_texts(v: &Vec<StyledLine>) -> (r: Vec<String>)
    ensures
        string_views(r@) == plain_lines(lines_view(v@)),
{
    let mut r: Vec<String> = Vec::new();
    let mut i: usize = 0;
    proof {
        assert(string_views(r@) =~= plain_lines(lines_view(v@)).take(0));
    }
    while i < v.len()
        invariant
            i <= v@.len(),
            string_views(r@) == plain_lines(lines_view(v@)).take(i as int),
        decreases v.len() - i,
    {
        let l = cat2(v[i].prefix.as_str(), v[i].text.as_str());
        let ghost before = r@;
        r.push(l);
        proof {
            assert(lines_view(v@)[i as int] == v@[i as int]@);
            assert(plain_lines(lines_view(v@))[i as int] == l@);
            assert(r@ == before.push(l));
            assert(string_views(before).len() == before.len());
            assert(plain_lines(lines_view(v@)).len() == v@.len());
            assert(before.len() == i);
            assert forall|k: int| 0 <= k < i + 1 implies #[trigger] string_views(r@)[k] == plain_lines(
                lines_view(v@),
            ).take(i + 1)[k] by {
                if k < i {
                    assert(r@[k] == before[k]);
                    assert(string_views(before)[k] == plain_lines(lines_view(v@)).take(i as int)[k]);
                }
            }
            assert(string_views(r@) =~= plain_lines(lines_view(v@)).take(i + 1));
        }
        i = i + 1;
    }
    proof {
        assert(plain_lines(lines_view(v@)).take(v@.len() as int) =~= plain_lines(lines_view(v@)));
    }
    r
}

/// The outline of an expression, one line per node or label, without
/// styling.
pub fn expr_tree(expr: &Expr) -> (r: Vec<String>)
    ensures
        string_views(r@) == plain_lines(expr_lines(expr@, Seq::empty(), BranchType::Last)),
{
    let out = expr_outline(expr);
    plain_texts(&out)
}

/// The outline of a statement, one line per node or label, without styling.
pub fn stmt_tree(stmt: &Stmt) -> (r: Vec<String>)
    ensures
        string_views(r@) == plain_lines(stmt_lines(*stmt, Seq::empty(), BranchType::Last)),
{
    let out = stmt_outline(stmt);
    plain_texts(&out)
}

/// The paint of each style; labels that introduce children and remarks on
/// empty lists stay plain.
pub open spec fn style_paint(st: Style) -> Option<Paint> {
    match st {
        Style::Keyword => Some(Paint::BlueBold),
        Style::Operator => Some(Paint::Yellow),
        Style::Punctuation => Some(Paint::Blue),
        Style::Literal => Some(Paint::Green),
        Style::Variable => Some(Paint::Cyan),
        Style::TypeName => Some(Paint::Red),
        Style::Structure => None,
        Style::Metadata => None,
    }
}

/// The text of a line in its style, painted when colours are `on`.
pub open spec fn styled_text(l: OutlineLine, on: bool) -> Seq<char> {
    match style_paint(l.style) {
        Some(p) => painted(l.text, p, on),
        None => l.text,
    }
}

/// Lines drawn one after another, each ended by a newline, the text of
/// line `i` painted when `on[i]`.
pub open spec fn rendered(ls: Seq<OutlineLine>, on: Seq<bool>) -> Seq<char>
    decreases ls.len(),
{
    if ls.len() == 0 {
        Seq::empty()
    } else {
        rendered(ls.drop_last(), on.drop_last()) + ls.last().prefix + styled_text(ls.last(), on.last()) + "\n"@
    }
}

/// The text of a line in its style.
fn style_text(l: &StyledLine) -> (r: String)
    ensures
        r@ == styled_text(l@, true) || r@ == styled_text(l@, false),
{
    match l.style {
        Style::Keyword => paint(l.text.as_str(), Paint::BlueBold),
        Style::Operator => paint(l.text.as_str(), Paint::Yellow),
        Style::Punctuation => paint(l.text.as_str(), Paint::Blue),
        Style::Literal => paint(l.text.as_str(), Paint::Green),
        Style::Variable => paint(l.text.as_str(), Paint::Cyan),
        Style::TypeName => paint(l.text.as_str(), Paint::Red),
        Style::Structure | Style::Metadata => l.text.as_str().to_owned(),
    }
}

/// The lines drawn one after another, styled, each ended by a newline.
pub fn render_outline(v: &Vec<StyledLine>) -> (r: String)
    ensures
        exists|on: Seq<bool>| on.len() == v@.len() && r@ == rendered(lines_view(v@), on),
{
    let mut out = String::new();
    let ghost mut on: Seq<bool> = Seq::empty();
    let mut i: usize = 0;
    proof {
        assert(lines_view(v@).take(0) =~= Seq::<OutlineLine>::empty());
    }
    while i < v.len()
        invariant
            i <= v@.len(),
            on.len() == i,
            out@ == rendered(lines_view(v@).take(i as int), on),
        decreases v.len() - i,
    {
        let t = style_text(&v[i]);
        let ghost lit = t@ == styled_text(v@[i as int]@, true);
        out.append(v[i].prefix.as_str());
        out.append(t.as_str());
        out.append("\n");
        proof {
            let next = lines_view(v@).take(i + 1);
            let on2 = on.push(lit);
            assert(next.drop_last() =~= lines_view(v@).take(i as int));
            assert(on2.drop_last() =~= on);
            assert(next.last() == v@[i as int]@);
            assert(t@ == styled_text(next.last(), on2.last()));
            on = on2;
        }
        i = i + 1;
    }
    proof {
        assert(lines_view(v@).take(v@.len() as int) =~= lines_view(v@));
    }
    out
}

} // verus!
