//! The nodes of an expression tree and their canonical text.
//!
//! Every node type has a spec function `text`, which says what the node is
//! written as, and two executable methods proved against it: `fmt` appends the
//! text to a string, and `render` returns it as a new string. The text is a
//! structural dump: every binary operation is parenthesised, and a block puts
//! each of its expressions on a line of its own.

use crate::decimal::{
    decimal, decimal_value, digits_start, is_digit, lemma_decimal, write_int,
};
use vstd::prelude::*;
use vstd::string::*;

verus! {

/// A block body: expressions in order, possibly none.
pub struct ExprList<'a>(pub Vec<Box<Expr<'a>>>);

/// An expression.
pub enum Expr<'a> {
    /// A number literal.
    Number(Number),
    /// A binary operation: left operand, operator, right operand.
    Op(Box<Expr<'a>>, Opcode, Box<Expr<'a>>),
    /// A call of a named function.
    FunctionCall(FunctionCall<'a>),
    /// A conditional without an else branch: condition and body.
    If(Box<Expr<'a>>, ExprList<'a>),
    /// A conditional with an else branch: condition and the two bodies.
    IfElse(Box<Expr<'a>>, ExprList<'a>, ExprList<'a>),
    /// A name.
    Ident(Ident<'a>),
    /// Stands in place of an expression that could not be built.
    Error,
}

/// A call: the callee's name and the arguments.
pub struct FunctionCall<'a> {
    pub ident: Ident<'a>,
    pub args: ArgList<'a>,
}

/// The arguments of a call, in order, possibly none.
pub struct ArgList<'a>(pub Vec<Box<Expr<'a>>>);

/// A name, borrowed from the source text.
pub struct Ident<'a>(pub &'a str);

/// A number literal.
pub enum Number {
    /// A 64-bit signed integer.
    Int(i64),
    /// A floating-point literal, held as its decimal text.
    Float(String),
}

/// A binary operator.
pub enum Opcode {
    Mul,
    Div,
    Add,
    Sub,
}

/// The texts of the first `n` expressions of `items`, with `sep` between each
/// two neighbours; empty if `n` is zero or more than there are.
pub open spec fn joined<'a>(items: Seq<Box<Expr<'a>>>, n: nat, sep: Seq<char>) -> Seq<char>
    decreases items, n,
{
    if n == 0 || n > items.len() {
        Seq::empty()
    } else if n == 1 {
        items[0].text()
    } else {
        joined(items, (n - 1) as nat, sep) + sep + items[n - 1].text()
    }
}

/// Appends the texts of `items` to `out`, with `sep` between each two
/// neighbours.
fn write_joined<'a>(items: &Vec<Box<Expr<'a>>>, sep: &str, out: &mut String)
    ensures
        final(out)@ == old(out)@ + joined(items@, items@.len(), sep@),
    decreases items,
{
    let mut i: usize = 0;
    while i < items.len()
        invariant
            i <= items.len(),
            out@ == old(out)@ + joined(items@, i as nat, sep@),
        decreases items.len() - i,
    {
        if i > 0 {
            out.append(sep);
        }
        items[i].fmt(out);
        i += 1;
    }
}

impl Opcode {
    /// The operator's symbol.
    pub open spec fn text(&self) -> Seq<char> {
        match self {
            Opcode::Mul => "*"@,
            Opcode::Div => "/"@,
            Opcode::Add => "+"@,
            Opcode::Sub => "-"@,
        }
    }

    /// Appends the operator's symbol to `out`.
    pub fn fmt(&self, out: &mut String)
        ensures
            final(out)@ == old(out)@ + self.text(),
    {
        match self {
            Opcode::Mul => out.append("*"),
            Opcode::Div => out.append("/"),
            Opcode::Add => out.append("+"),
            Opcode::Sub => out.append("-"),
        }
    }

    /// The operator's symbol as a string.
    pub fn render(&self) -> (s: String)
        ensures
            s@ == self.text(),
    {
        let mut s = String::new();
        self.fmt(&mut s);
        s
    }
}

impl Number {
    /// An integer in decimal notation; a floating-point literal as the text
    /// it holds.
    pub open spec fn text(&self) -> Seq<char> {
        match self {
            Number::Int(i) => decimal(*i as int),
            Number::Float(t) => t@,
        }
    }

    /// Appends the literal's text to `out`.
    pub fn fmt(&self, out: &mut String)
        ensures
            final(out)@ == old(out)@ + self.text(),
    {
        match self {
            Number::Int(i) => write_int(*i, out),
            Number::Float(t) => out.append(t.as_str()),
        }
    }

    /// The literal's text as a string.
    pub fn render(&self) -> (s: String)
        ensures
            s@ == self.text(),
    {
        let mut s = String::new();
        self.fmt(&mut s);
        s
    }
}

impl<'a> Ident<'a> {
    /// The name itself.
    pub open spec fn text(&self) -> Seq<char> {
        self.0@
    }

    /// Appends the name to `out`.
    pub fn fmt(&self, out: &mut String)
        ensures
            final(out)@ == old(out)@ + self.text(),
    {
        out.append(self.0);
    }

    /// The name as a string.
    pub fn render(&self) -> (s: String)
        ensures
            s@ == self.text(),
    {
        let mut s = String::new();
        self.fmt(&mut s);
        s
    }
}

impl<'a> Expr<'a> {
    /// What the expression is written as.
    pub open spec fn text(&self) -> Seq<char>
        decreases self,
    {
        match self {
            Expr::Number(n) => n.text(),
            Expr::Op(l, op, r) => "("@ + l.text() + " "@ + op.text() + " "@ + r.text() + ")"@,
            Expr::FunctionCall(f) => f.text(),
            Expr::If(cond, body) => "if "@ + cond.text() + " "@ + body.text(),
            Expr::IfElse(cond, body, other) => "if "@ + cond.text() + " "@ + body.text()
                + " else "@ + other.text(),
            Expr::Ident(i) => i.text(),
            Expr::Error => "error"@,
        }
    }

    /// Appends the expression's text to `out`.
    pub fn fmt(&self, out: &mut String)
        ensures
            final(out)@ == old(out)@ + self.text(),
        decreases self,
    {
        match self {
            Expr::Number(n) => n.fmt(out),
            Expr::Op(l, op, r) => {
                out.append("(");
                l.fmt(out);
                out.append(" ");
                op.fmt(out);
                out.append(" ");
                r.fmt(out);
                out.append(")");
            },
            Expr::FunctionCall(f) => f.fmt(out),
            Expr::If(cond, body) => {
                out.append("if ");
                cond.fmt(out);
                out.append(" ");
                body.fmt(out);
            },
            Expr::IfElse(cond, body, other) => {
                out.append("if ");
                cond.fmt(out);
                out.append(" ");
                body.fmt(out);
                out.append(" else ");
                other.fmt(out);
            },
            Expr::Ident(i) => i.fmt(out),
            Expr::Error => out.append("error"),
        }
    }

    /// The expression's text as a string.
    pub fn render(&self) -> (s: String)
        ensures
            s@ == self.text(),
    {
        let mut s = String::new();
        self.fmt(&mut s);
        s
    }
}

impl<'a> FunctionCall<'a> {
    /// The callee's name, then the argument list.
    pub open spec fn text(&self) -> Seq<char>
        decreases self,
    {
        self.ident.text() + self.args.text()
    }

    /// Appends the call's text to `out`.
    pub fn fmt(&self, out: &mut String)
        ensures
            final(out)@ == old(out)@ + self.text(),
        decreases self,
    {
        self.ident.fmt(out);
        self.args.fmt(out);
    }

    /// The call's text as a string.
    pub fn render(&self) -> (s: String)
        ensures
            s@ == self.text(),
    {
        let mut s = String::new();
        self.fmt(&mut s);
        s
    }
}

impl<'a> ArgList<'a> {
    /// The arguments between parentheses, a comma and a space between each
    /// two neighbours.
    pub open spec fn text(&self) -> Seq<char>
        decreases self,
    {
        "("@ + joined(self.0@, self.0@.len(), ", "@) + ")"@
    }

    /// Appends the argument list's text to `out`.
    pub fn fmt(&self, out: &mut String)
        ensures
            final(out)@ == old(out)@ + self.text(),
        decreases self,
    {
        out.append("(");
        write_joined(&self.0, ", ", out);
        out.append(")");
    }

    /// The argument list's text as a string.
    pub fn render(&self) -> (s: String)
        ensures
            s@ == self.text(),
    {
        let mut s = String::new();
        self.fmt(&mut s);
        s
    }
}

impl<'a> ExprList<'a> {
    /// Nothing for an empty block. Otherwise an opening brace and a space,
    /// each expression on a line of its own, and on the last line a space
    /// and the closing brace.
    pub open spec fn text(&self) -> Seq<char>
        decreases self,
    {
        if self.0@.len() == 0 {
            Seq::empty()
        } else {
            "{ \n"@ + joined(self.0@, self.0@.len(), "\n"@) + "\n }"@
        }
    }

    /// Appends the block's text to `out`.
    pub fn fmt(&self, out: &mut String)
        ensures
            final(out)@ == old(out)@ + self.text(),
        decreases self,
    {
        if self.0.len() > 0 {
            out.append("{ \n");
            write_joined(&self.0, "\n", out);
            out.append("\n }");
        }
    }

    /// The block's text as a string.
    pub fn render(&self) -> (s: String)
        ensures
            s@ == self.text(),
    {
        let mut s = String::new();
        self.fmt(&mut s);
        s
    }
}

/// An integer literal is written as the decimal notation of its value: a
/// minus sign exactly when the value is negative, then digit characters only,
/// the first of them `0` only for zero, which together denote the value.
pub proof fn lemma_int_literal_text(i: i64)
    ensures
        Expr::Number(Number::Int(i)).text() == decimal(i as int),
        Number::Int(i).text() == decimal(i as int),
        decimal(i as int)[0] == '-' <==> i < 0,
        forall|k: int|
            digits_start(i as int) <= k < decimal(i as int).len() ==> is_digit(
                #[trigger] decimal(i as int)[k],
            ),
        decimal(i as int)[digits_start(i as int)] == '0' <==> i == 0,
        decimal_value(decimal(i as int)) == i,
{
    lemma_decimal(i as int);
}

/// Each operator is written as its one-character symbol.
pub proof fn lemma_opcode_text(op: Opcode)
    ensures
        op.text() == seq![
            match op {
                Opcode::Mul => '*',
                Opcode::Div => '/',
                Opcode::Add => '+',
                Opcode::Sub => '-',
            },
        ],
{
    reveal_strlit("*");
    reveal_strlit("/");
    reveal_strlit("+");
    reveal_strlit("-");
}

/// A binary operation is written as an opening parenthesis, the left operand,
/// the operator's symbol with one space on each side, the right operand and a
/// closing parenthesis, whatever the operands and the operator are.
pub proof fn lemma_op_text<'a>(l: Expr<'a>, op: Opcode, r: Expr<'a>)
    ensures
        Expr::Op(Box::new(l), op, Box::new(r)).text() == "("@ + l.text() + " "@ + op.text() + " "@
            + r.text() + ")"@,
        Expr::Op(Box::new(l), op, Box::new(r)).text().first() == '(',
        Expr::Op(Box::new(l), op, Box::new(r)).text().last() == ')',
{
    reveal_strlit("(");
    reveal_strlit(")");
}

/// An argument list without arguments is written as a pair of parentheses,
/// and a block without expressions as nothing at all.
pub proof fn lemma_empty_lists<'a>(args: ArgList<'a>, block: ExprList<'a>)
    requires
        args.0@.len() == 0,
        block.0@.len() == 0,
    ensures
        args.text() == "()"@,
        args.text() == seq!['(', ')'],
        block.text() == ""@,
        block.text() == Seq::<char>::empty(),
{
    reveal_strlit("(");
    reveal_strlit(")");
    reveal_strlit("()");
    reveal_strlit("");
}

/// A block of the three expressions `a`, `b` and `c` is written as an opening
/// brace and a space, then `a`, `b` and `c` each on a line of its own, then
/// on a last line a space and the closing brace.
pub proof fn lemma_block_of_three<'a>(a: Expr<'a>, b: Expr<'a>, c: Expr<'a>, block: ExprList<'a>)
    requires
        block.0@ == seq![Box::new(a), Box::new(b), Box::new(c)],
    ensures
        block.text() == "{ \n"@ + a.text() + "\n"@ + b.text() + "\n"@ + c.text() + "\n }"@,
{
    assert(joined(block.0@, 1, "\n"@) == a.text());
}

/// The placeholder for an expression that could not be built is written as
/// the word `error`, and nothing of its surroundings enters into that.
pub proof fn lemma_error_text()
    ensures
        Expr::Error.text() == "error"@,
        Expr::Error.text() == seq!['e', 'r', 'r', 'o', 'r'],
{
    reveal_strlit("error");
}

/// Rendering depends on the tree alone: two strings that each hold the text
/// of one expression are equal.
pub proof fn lemma_render_deterministic<'a>(e: Expr<'a>, first: String, second: String)
    requires
        first@ == e.text(),
        second@ == e.text(),
    ensures
        first@ == second@,
{
}

} // verus!
