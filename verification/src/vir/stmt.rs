//! Statements of an always construct.

use vstd::prelude::*;
use crate::vir::expr::{
    clone_exprs,
    expr_texts,
    exprs_are_well_formed,
    exprs_to_strings,
    exprs_wf,
    Expression,
    Primary,
};
use crate::vir::text::{indent, indented, join, join_iter, joined, views};

verus! {

/// Number of spaces by which a nested block is indented.
pub const INDENT: usize = 4;

/// Statement.
///
/// Each statement but `Fatal` ends with the place in the source that it was
/// generated from, as the compiler prints it; the text shows it in a comment.
#[derive(Debug, PartialEq, Eq)]
pub enum Statement {
    /// Blocking assignment.
    BlockingAssignment(Expression, Expression, String),
    /// Conditional statement: the conditions with their branches, and the else branch.
    Conditional(Vec<(Expression, Vec<Statement>)>, Vec<Statement>, String),
    /// Loop statement: the loop variable, the number of rounds, and the body.
    Loop(String, Expression, Vec<Statement>, String),
    /// Nonblocking assignment.
    NonblockingAssignment(Expression, Expression, String),
    /// Case statement: the expression, the cases with their branches, and the default branch.
    Case(Expression, Vec<(Expression, Vec<Statement>)>, Vec<Statement>, String),
    /// Display: the format string and its arguments.
    Display(String, Vec<Expression>, String),
    /// Fatal
    Fatal,
}

/// Every statement of the sequence is well formed.
pub open spec fn stmts_wf(stmts: Seq<Statement>) -> bool
    decreases stmts, 0nat,
{
    forall|i: int| 0 <= i < stmts.len() ==> (#[trigger] stmts[i]).wf()
}

/// The condition and the branch of every arm are well formed.
pub open spec fn arms_wf(arms: Seq<(Expression, Vec<Statement>)>) -> bool
    decreases arms, 0nat,
{
    forall|i: int| 0 <= i < arms.len() ==> (#[trigger] arms[i]).0.wf() && stmts_wf(arms[i].1@)
}

/// The texts of a sequence of statements, in order.
pub open spec fn stmt_texts(stmts: Seq<Statement>) -> Seq<Seq<char>>
    decreases stmts, 0nat,
{
    if stmts.len() == 0 {
        Seq::empty()
    } else {
        stmt_texts(stmts.drop_last()).push(stmts.last().text())
    }
}

/// A block: its statements one on each line, indented.
pub open spec fn block_text(stmts: Seq<Statement>) -> Seq<char>
    decreases stmts, 1nat,
{
    indented(joined(stmt_texts(stmts), "\n"@), INDENT as nat)
}

/// An arm of a conditional statement: `if (cond) begin`, the branch, `end`.
pub open spec fn branch_text(arm: (Expression, Vec<Statement>)) -> Seq<char>
    decreases arm, 2nat,
{
    "if ("@ + arm.0.text() + ") begin\n"@ + block_text(arm.1@) + "\nend"@
}

/// The texts of the arms of a conditional statement, in order.
pub open spec fn branch_texts(arms: Seq<(Expression, Vec<Statement>)>) -> Seq<Seq<char>>
    decreases arms, 0nat,
{
    if arms.len() == 0 {
        Seq::empty()
    } else {
        branch_texts(arms.drop_last()).push(branch_text(arms.last()))
    }
}

/// An arm of a case statement: `value: begin`, the branch, `end`.
pub open spec fn case_text(arm: (Expression, Vec<Statement>)) -> Seq<char>
    decreases arm, 2nat,
{
    arm.0.text() + ": begin\n"@ + block_text(arm.1@) + "\nend"@
}

/// The texts of the arms of a case statement, in order.
pub open spec fn case_texts(arms: Seq<(Expression, Vec<Statement>)>) -> Seq<Seq<char>>
    decreases arms, 0nat,
{
    if arms.len() == 0 {
        Seq::empty()
    } else {
        case_texts(arms.drop_last()).push(case_text(arms.last()))
    }
}

impl Statement {
    /// The statement can be written: its expressions are well formed, so are
    /// the statements in it, and a conditional statement with an else branch
    /// has at least one condition.
    pub open spec fn wf(self) -> bool
        decreases self, 0nat,
    {
        match self {
            Statement::BlockingAssignment(lvalue, expr, _) => lvalue.wf() && expr.wf(),
            Statement::Conditional(arms, else_stmt, _) => arms_wf(arms@) && stmts_wf(else_stmt@)
                && (else_stmt@.len() > 0 ==> arms@.len() > 0),
            Statement::Loop(_, count, body, _) => count.wf() && stmts_wf(body@),
            Statement::NonblockingAssignment(lvalue, expr, _) => lvalue.wf() && expr.wf(),
            Statement::Case(case_expr, arms, default, _) => case_expr.wf() && arms_wf(arms@)
                && stmts_wf(default@),
            Statement::Display(_, args, _) => exprs_wf(args@),
            Statement::Fatal => true,
        }
    }

    /// The statement as Verilog text.
    pub open spec fn text(self) -> Seq<char>
        decreases self, 0nat,
    {
        match self {
            Statement::BlockingAssignment(lvalue, expr, span) => lvalue.text() + " = "@
                + expr.text() + "; // "@ + span@,
            Statement::Conditional(arms, else_stmt, span) => "// "@ + span@ + "\n"@ + joined(
                branch_texts(arms@),
                "\nelse "@,
            ) + (if else_stmt@.len() == 0 {
                Seq::empty()
            } else {
                "\nelse begin\n"@ + block_text(else_stmt@) + "\nend"@
            }),
            Statement::Loop(ident, count, body, span) => "// "@ + span@ + "\nfor ("@ + ident@
                + " = 0; "@ + ident@ + " < "@ + count.text() + "; "@ + ident@ + " = "@ + ident@
                + " + 1) begin\n"@ + block_text(body@) + "\nend"@,
            Statement::NonblockingAssignment(lvalue, expr, span) => lvalue.text() + " <= "@
                + expr.text() + "; // "@ + span@,
            Statement::Case(case_expr, arms, default, span) => "// "@ + span@ + "\ncase ("@
                + case_expr.text() + ")\n"@ + indented(
                joined(case_texts(arms@), "\n"@),
                INDENT as nat,
            ) + (if default@.len() == 0 {
                Seq::empty()
            } else {
                indented("\ndefault: begin\n"@ + block_text(default@) + "\nend"@, INDENT as nat)
            }) + "\nendcase"@,
            Statement::Display(fstring, args, span) => "$fdisplay(32'h80000002,\"[%0t] "@
                + fstring@ + "\", $time"@ + (if args@.len() == 0 {
                Seq::empty()
            } else {
                ", "@ + joined(expr_texts(args@), ", "@)
            }) + "); // "@ + span@,
            Statement::Fatal => "$fatal;"@,
        }
    }
}

/// Tells whether every statement of the vector is well formed.
pub fn stmts_are_well_formed(stmts: &Vec<Statement>) -> (r: bool)
    ensures
        r == stmts_wf(stmts@),
    decreases stmts, 1nat,
{
    let mut i: usize = 0;
    while i < stmts.len()
        invariant
            0 <= i <= stmts.len(),
            forall|j: int| 0 <= j < i ==> (#[trigger] stmts@[j]).wf(),
        decreases stmts.len() - i,
    {
        if !stmts[i].is_well_formed() {
            return false;
        }
        i += 1;
    }
    true
}

fn arms_are_well_formed(arms: &Vec<(Expression, Vec<Statement>)>) -> (r: bool)
    ensures
        r == arms_wf(arms@),
    decreases arms, 3nat,
{
    let mut i: usize = 0;
    while i < arms.len()
        invariant
            0 <= i <= arms.len(),
            forall|j: int| 0 <= j < i ==> (#[trigger] arms@[j]).0.wf() && stmts_wf(arms@[j].1@),
        decreases arms.len() - i,
    {
        let arm = &arms[i];
        if !arm.0.is_well_formed() || !stmts_are_well_formed(&arm.1) {
            return false;
        }
        i += 1;
    }
    true
}

pub(crate) fn block_to_string(stmts: &Vec<Statement>) -> (r: String)
    requires
        stmts_wf(stmts@),
    ensures
        r@ == block_text(stmts@),
    decreases stmts, 1nat,
{
    let mut lines: Vec<String> = Vec::new();
    let mut i: usize = 0;
    while i < stmts.len()
        invariant
            0 <= i <= stmts.len(),
            stmts_wf(stmts@),
            views(lines@) == stmt_texts(stmts@.take(i as int)),
        decreases stmts.len() - i,
    {
        assert(stmts@.take(i + 1).drop_last() =~= stmts@.take(i as int));
        assert(stmts@.take(i + 1).last() == stmts@[i as int]);
        let ghost before = lines@;
        let line = stmts[i].to_string();
        lines.push(line);
        assert(views(lines@) =~= views(before).push(line@));
        i += 1;
    }
    assert(stmts@.take(stmts.len() as int) =~= stmts@);
    indent(join(&lines, "\n"), INDENT)
}

fn branches_to_strings(arms: &Vec<(Expression, Vec<Statement>)>) -> (r: Vec<String>)
    requires
        arms_wf(arms@),
    ensures
        views(r@) == branch_texts(arms@),
    decreases arms, 3nat,
{
    let mut texts: Vec<String> = Vec::new();
    let mut i: usize = 0;
    while i < arms.len()
        invariant
            0 <= i <= arms.len(),
            arms_wf(arms@),
            views(texts@) == branch_texts(arms@.take(i as int)),
        decreases arms.len() - i,
    {
        assert(arms@.take(i + 1).drop_last() =~= arms@.take(i as int));
        assert(arms@.take(i + 1).last() == arms@[i as int]);
        let ghost before = texts@;
        let arm = &arms[i];
        let mut text = String::from_str("if (");
        text.append(arm.0.to_string().as_str());
        text.append(") begin\n");
        text.append(block_to_string(&arm.1).as_str());
        text.append("\nend");
        assert(text@ == branch_text(arms@[i as int]));
        texts.push(text);
        assert(views(texts@) =~= views(before).push(text@));
        i += 1;
    }
    assert(arms@.take(arms.len() as int) =~= arms@);
    texts
}

fn cases_to_strings(arms: &Vec<(Expression, Vec<Statement>)>) -> (r: Vec<String>)
    requires
        arms_wf(arms@),
    ensures
        views(r@) == case_texts(arms@),
    decreases arms, 3nat,
{
    let mut texts: Vec<String> = Vec::new();
    let mut i: usize = 0;
    while i < arms.len()
        invariant
            0 <= i <= arms.len(),
            arms_wf(arms@),
            views(texts@) == case_texts(arms@.take(i as int)),
        decreases arms.len() - i,
    {
        assert(arms@.take(i + 1).drop_last() =~= arms@.take(i as int));
        assert(arms@.take(i + 1).last() == arms@[i as int]);
        let ghost before = texts@;
        let arm = &arms[i];
        let mut text = arm.0.to_string();
        text.append(": begin\n");
        text.append(block_to_string(&arm.1).as_str());
        text.append("\nend");
        assert(text@ == case_text(arms@[i as int]));
        texts.push(text);
        assert(views(texts@) =~= views(before).push(text@));
        i += 1;
    }
    assert(arms@.take(arms.len() as int) =~= arms@);
    texts
}

impl Statement {
    /// Tells whether the statement can be written.
    pub fn is_well_formed(&self) -> (r: bool)
        ensures
            r == self.wf(),
        decreases self, 0nat,
    {
        match self {
            Statement::BlockingAssignment(lvalue, expr, _) => lvalue.is_well_formed()
                && expr.is_well_formed(),
            Statement::Conditional(arms, else_stmt, _) => arms_are_well_formed(arms)
                && stmts_are_well_formed(else_stmt) && (else_stmt.len() == 0 || arms.len() > 0),
            Statement::Loop(_, count, body, _) => count.is_well_formed() && stmts_are_well_formed(
                body,
            ),
            Statement::NonblockingAssignment(lvalue, expr, _) => lvalue.is_well_formed()
                && expr.is_well_formed(),
            Statement::Case(case_expr, arms, default, _) => case_expr.is_well_formed()
                && arms_are_well_formed(arms) && stmts_are_well_formed(default),
            Statement::Display(_, args, _) => exprs_are_well_formed(args),
            Statement::Fatal => true,
        }
    }

    /// Writes the statement as Verilog text.
    pub fn to_string(&self) -> (r: String)
        requires
            self.wf(),
        ensures
            r@ == self.text(),
        decreases self, 0nat,
    {
        match self {
            Statement::BlockingAssignment(lvalue, expr, span) => {
                let mut out = lvalue.to_string();
                out.append(" = ");
                out.append(expr.to_string().as_str());
                out.append("; // ");
                out.append(span.as_str());
                out
            },
            Statement::Conditional(arms, else_stmt, span) => {
                let conditional = join_iter(&branches_to_strings(arms), "\nelse ");
                let mut out = String::from_str("// ");
                out.append(span.as_str());
                out.append("\n");
                out.append(conditional.as_str());
                let ghost head = out@;
                if else_stmt.len() > 0 {
                    let mut tail = String::from_str("\nelse begin\n");
                    tail.append(block_to_string(else_stmt).as_str());
                    tail.append("\nend");
                    out.append(tail.as_str());
                }
                assert(out@ =~= self.text());
                out
            },
            Statement::Loop(ident, count, body, span) => {
                let mut out = String::from_str("// ");
                out.append(span.as_str());
                out.append("\nfor (");
                out.append(ident.as_str());
                out.append(" = 0; ");
                out.append(ident.as_str());
                out.append(" < ");
                out.append(count.to_string().as_str());
                out.append("; ");
                out.append(ident.as_str());
                out.append(" = ");
                out.append(ident.as_str());
                out.append(" + 1) begin\n");
                out.append(block_to_string(body).as_str());
                out.append("\nend");
                out
            },
            Statement::NonblockingAssignment(lvalue, expr, span) => {
                let mut out = lvalue.to_string();
                out.append(" <= ");
                out.append(expr.to_string().as_str());
                out.append("; // ");
                out.append(span.as_str());
                out
            },
            Statement::Case(case_expr, arms, default, span) => {
                let case_items_code = join(&cases_to_strings(arms), "\n");
                let mut out = String::from_str("// ");
                out.append(span.as_str());
                out.append("\ncase (");
                out.append(case_expr.to_string().as_str());
                out.append(")\n");
                out.append(indent(case_items_code, INDENT).as_str());
                let ghost head = out@;
                if default.len() > 0 {
                    let mut code = String::from_str("\ndefault: begin\n");
                    code.append(block_to_string(default).as_str());
                    code.append("\nend");
                    out.append(indent(code, INDENT).as_str());
                }
                assert(out@ =~= head + (if default@.len() == 0 {
                    Seq::empty()
                } else {
                    indented(
                        "\ndefault: begin\n"@ + block_text(default@) + "\nend"@,
                        INDENT as nat,
                    )
                }));
                out.append("\nendcase");
                out
            },
            Statement::Display(fstring, args, span) => {
                let mut out = String::from_str("$fdisplay(32'h80000002,\"[%0t] ");
                out.append(fstring.as_str());
                out.append("\", $time");
                let ghost head = out@;
                if args.len() > 0 {
                    let mut tail = String::from_str(", ");
                    tail.append(join_iter(&exprs_to_strings(args), ", ").as_str());
                    out.append(tail.as_str());
                }
                assert(out@ =~= head + (if args@.len() == 0 {
                    Seq::empty()
                } else {
                    ", "@ + joined(expr_texts(args@), ", "@)
                }));
                out.append("); // ");
                out.append(span.as_str());
                out
            },
            Statement::Fatal => String::from_str("$fatal;"),
        }
    }

    /// Blocking assignment to a hierarchical identifier.
    #[inline]
    pub fn blocking_assignment(lvalue: Expression, expr: Expression, span: String) -> (r: Self)
        requires
            lvalue matches Expression::Primary(Primary::HierarchicalIdentifier(_, _)),
        ensures
            r == Statement::BlockingAssignment(lvalue, expr, span),
    {
        Statement::BlockingAssignment(lvalue, expr, span)
    }

    /// Nonblocking assignment to a hierarchical identifier.
    #[inline]
    pub fn nonblocking_assignment(lvalue: Expression, expr: Expression, span: String) -> (r: Self)
        requires
            lvalue matches Expression::Primary(Primary::HierarchicalIdentifier(_, _)),
        ensures
            r == Statement::NonblockingAssignment(lvalue, expr, span),
    {
        Statement::NonblockingAssignment(lvalue, expr, span)
    }
}

pub(crate) fn clone_stmts(stmts: &Vec<Statement>) -> (r: Vec<Statement>)
    ensures
        r@.len() == stmts@.len(),
        stmt_texts(r@) == stmt_texts(stmts@),
        stmts_wf(r@) == stmts_wf(stmts@),
    decreases stmts, 1nat,
{
    let mut out: Vec<Statement> = Vec::new();
    let mut i: usize = 0;
    while i < stmts.len()
        invariant
            0 <= i <= stmts.len(),
            out@.len() == i,
            stmt_texts(out@) == stmt_texts(stmts@.take(i as int)),
            forall|j: int| 0 <= j < i ==> (#[trigger] out@[j]).wf() == stmts@[j].wf(),
        decreases stmts.len() - i,
    {
        assert(stmts@.take(i + 1).drop_last() =~= stmts@.take(i as int));
        assert(stmts@.take(i + 1).last() == stmts@[i as int]);
        let ghost before = out@;
        let stmt = stmts[i].clone();
        out.push(stmt);
        assert(out@.drop_last() =~= before);
        i += 1;
    }
    assert(stmts@.take(stmts.len() as int) =~= stmts@);
    assert forall|j: int| 0 <= j < stmts@.len() implies (#[trigger] stmts@[j]).wf() == out@[j].wf() by {
        assert(out@[j].wf() == stmts@[j].wf());
    }
    out
}

fn clone_arms(arms: &Vec<(Expression, Vec<Statement>)>) -> (r: Vec<(Expression, Vec<Statement>)>)
    ensures
        r@.len() == arms@.len(),
        branch_texts(r@) == branch_texts(arms@),
        case_texts(r@) == case_texts(arms@),
        arms_wf(r@) == arms_wf(arms@),
    decreases arms, 3nat,
{
    let mut out: Vec<(Expression, Vec<Statement>)> = Vec::new();
    let mut i: usize = 0;
    while i < arms.len()
        invariant
            0 <= i <= arms.len(),
            out@.len() == i,
            branch_texts(out@) == branch_texts(arms@.take(i as int)),
            case_texts(out@) == case_texts(arms@.take(i as int)),
            forall|j: int|
                0 <= j < i ==> (#[trigger] out@[j]).0.wf() == arms@[j].0.wf() && stmts_wf(
                    out@[j].1@,
                ) == stmts_wf(arms@[j].1@),
        decreases arms.len() - i,
    {
        assert(arms@.take(i + 1).drop_last() =~= arms@.take(i as int));
        assert(arms@.take(i + 1).last() == arms@[i as int]);
        let ghost before = out@;
        let arm = &arms[i];
        let copy = (arm.0.clone(), clone_stmts(&arm.1));
        assert(branch_text(copy) == branch_text(arms@[i as int]));
        assert(case_text(copy) == case_text(arms@[i as int]));
        out.push(copy);
        assert(out@.drop_last() =~= before);
        i += 1;
    }
    assert(arms@.take(arms.len() as int) =~= arms@);
    assert forall|j: int| 0 <= j < arms@.len() implies (#[trigger] arms@[j]).0.wf() == out@[j].0.wf()
        && stmts_wf(arms@[j].1@) == stmts_wf(out@[j].1@) by {
        assert(out@[j].0.wf() == arms@[j].0.wf());
    }
    out
}

impl Clone for Statement {
    /// Returns a statement of the same text.
    fn clone(&self) -> (r: Self)
        ensures
            r.text() == self.text(),
            r.wf() == self.wf(),
        decreases self, 0nat,
    {
        match self {
            Statement::BlockingAssignment(lvalue, expr, span) => Statement::BlockingAssignment(
                lvalue.clone(),
                expr.clone(),
                span.clone(),
            ),
            Statement::Conditional(arms, else_stmt, span) => Statement::Conditional(
                clone_arms(arms),
                clone_stmts(else_stmt),
                span.clone(),
            ),
            Statement::Loop(ident, count, body, span) => Statement::Loop(
                ident.clone(),
                count.clone(),
                clone_stmts(body),
                span.clone(),
            ),
            Statement::NonblockingAssignment(lvalue, expr, span) => {
                Statement::NonblockingAssignment(lvalue.clone(), expr.clone(), span.clone())
            },
            Statement::Case(case_expr, arms, default, span) => Statement::Case(
                case_expr.clone(),
                clone_arms(arms),
                clone_stmts(default),
                span.clone(),
            ),
            Statement::Display(fstring, args, span) => Statement::Display(
                fstring.clone(),
                clone_exprs(args),
                span.clone(),
            ),
            Statement::Fatal => Statement::Fatal,
        }
    }
}

} // verus!
