//! The grammar, as mathematics: a step-for-step specification of the
//! recursive-descent walk the parser takes, over view-level syntax trees
//! (texts as character sequences). `spec_parse_program` says, for every
//! token stream, whether it derives a program and which one; the parser's
//! contracts tie its results to this walk.
//!
//! One atom stays loose: an f-string token's inner re-parse (which re-lexes
//! text) is represented by a marker that admits exactly the three shapes the
//! re-parse can produce; `parse_fstring`'s own contract pins the brace-free
//! case.

use vstd::prelude::*;

use crate::ast::{
    BinaryOp, Block, Expr, FStringPart, Function, Literal, Param, Statement, Type, UnaryOp,
};
use crate::token::{Token, TokenKind};

verus! {

pub enum TypeV {
    Simple(Seq<char>),
    Generic { base: Seq<char>, args: Seq<TypeV> },
}

pub struct ParamV {
    pub name: Seq<char>,
    pub ty: Option<TypeV>,
}

pub enum LitV {
    Str(Seq<char>),
    Num(Seq<char>),
    Bool(bool),
}

pub enum ExprV {
    Lit(LitV),
    Ident(Seq<char>),
    Member(Box<ExprV>, Seq<char>),
    CallOf(Box<ExprV>, Seq<ExprV>),
    Binary(BinaryOp, Box<ExprV>, Box<ExprV>),
    Unary(UnaryOp, Box<ExprV>),
    RangeOf(Box<ExprV>, Box<ExprV>),
    /// An f-string atom: the token's raw body; the inner re-parse is not
    /// mirrored here.
    FStringAtom(Seq<char>),
    Lambda(Seq<ParamV>, Option<TypeV>, Seq<StmtV>),
    AwaitOf(Box<ExprV>),
    SpawnOf(Box<ExprV>),
}

pub enum StmtV {
    LetOf(Seq<char>, ExprV),
    Assign(Seq<char>, ExprV),
    IfOf(Box<ExprV>, Seq<StmtV>, Seq<(ExprV, Seq<StmtV>)>, Option<Seq<StmtV>>),
    ForOf(Seq<char>, ExprV, Seq<StmtV>),
    WhileOf(ExprV, Seq<StmtV>),
    BreakOf,
    ContinueOf,
    ReturnOf(Option<ExprV>),
    Func(Seq<char>, Seq<ParamV>, Option<TypeV>, Seq<StmtV>),
    ExprOf(ExprV),
    UseOf(Seq<char>, Option<Seq<char>>),
}

pub open spec fn type_matches(t: Type, v: TypeV) -> bool
    decreases t,
{
    match (t, v) {
        (Type::Simple(name), TypeV::Simple(n)) => name@ == n,
        (Type::Generic { base, args }, TypeV::Generic { base: b, args: a }) => {
            base@ == b && types_match(args@, a)
        },
        _ => false,
    }
}

pub open spec fn types_match(ts: Seq<Type>, vs: Seq<TypeV>) -> bool
    decreases ts,
{
    ts.len() == vs.len()
        && (ts.len() == 0 || (type_matches(ts.first(), vs.first())
            && types_match(ts.drop_first(), vs.drop_first())))
}

pub open spec fn param_matches(p: Param, v: ParamV) -> bool {
    p.name@ == v.name && match (p.ty, v.ty) {
        (Option::None, Option::None) => true,
        (Option::Some(t), Option::Some(tv)) => type_matches(t, tv),
        _ => false,
    }
}

pub open spec fn params_match(ps: Seq<Param>, vs: Seq<ParamV>) -> bool
    decreases ps.len(),
{
    ps.len() == vs.len()
        && (ps.len() == 0 || (param_matches(ps.first(), vs.first())
            && params_match(ps.drop_first(), vs.drop_first())))
}

pub open spec fn lit_matches(l: Literal, v: LitV) -> bool {
    match (l, v) {
        (Literal::String(s), LitV::Str(t)) => s@ == t,
        (Literal::Number(s), LitV::Num(t)) => s@ == t,
        (Literal::Bool(b), LitV::Bool(c)) => b == c,
        _ => false,
    }
}

pub open spec fn expr_matches(e: Expr, v: ExprV) -> bool
    decreases e,
{
    match v {
        ExprV::Lit(lv) => e matches Expr::Literal(l) && lit_matches(l, lv),
        ExprV::Ident(n) => e matches Expr::Identifier(name) && name@ == n,
        ExprV::Member(ov, f) => e matches Expr::Member { object, field }
            && expr_matches(*object, *ov) && field@ == f,
        ExprV::CallOf(fv, avs) => e matches Expr::Call { func, args }
            && expr_matches(*func, *fv) && exprs_match(args@, avs),
        ExprV::Binary(opv, lv, rv) => e matches Expr::Binary { op, left, right }
            && op == opv && expr_matches(*left, *lv) && expr_matches(*right, *rv),
        ExprV::Unary(opv, iv) => e matches Expr::Unary { op, expr }
            && op == opv && expr_matches(*expr, *iv),
        ExprV::RangeOf(sv, ev) => e matches Expr::Range { start, end }
            && expr_matches(*start, *sv) && expr_matches(*end, *ev),
        // The f-string re-parse is not mirrored: the atom admits exactly the
        // three shapes it can produce.
        ExprV::FStringAtom(_) => e is Literal || e is Identifier || e is FString,
        ExprV::Lambda(pvs, rv, bvs) => e matches Expr::Lambda { params, ret_ty, body }
            && params_match(params@, pvs)
            && (match (ret_ty, rv) {
                (Option::None, Option::None) => true,
                (Option::Some(t), Option::Some(tv)) => type_matches(t, tv),
                _ => false,
            })
            && stmts_match(body.statements@, bvs),
        ExprV::AwaitOf(iv) => e matches Expr::Await(inner) && expr_matches(*inner, *iv),
        ExprV::SpawnOf(iv) => e matches Expr::Spawn(inner) && expr_matches(*inner, *iv),
    }
}

pub open spec fn exprs_match(es: Seq<Expr>, vs: Seq<ExprV>) -> bool
    decreases es,
{
    es.len() == vs.len()
        && (es.len() == 0 || (expr_matches(es.first(), vs.first())
            && exprs_match(es.drop_first(), vs.drop_first())))
}

pub open spec fn stmt_matches(s: Statement, v: StmtV) -> bool
    decreases s,
{
    match v {
        StmtV::LetOf(n, ev) => s matches Statement::Let { name, expr }
            && name@ == n && expr_matches(expr, ev),
        StmtV::Assign(n, ev) => s matches Statement::Assignment { name, expr }
            && name@ == n && expr_matches(expr, ev),
        StmtV::IfOf(cv, tv, evs, elv) => s matches Statement::If {
            cond, then_block, elif_blocks, else_block }
            && expr_matches(*cond, *cv)
            && stmts_match(then_block.statements@, tv)
            && elifs_match(elif_blocks@, evs)
            && (match (else_block, elv) {
                (Option::None, Option::None) => true,
                (Option::Some(b), Option::Some(bv)) => stmts_match(b.statements@, bv),
                _ => false,
            }),
        StmtV::ForOf(n, iv, bv) => s matches Statement::For { var, iterable, body }
            && var@ == n && expr_matches(iterable, iv) && stmts_match(body.statements@, bv),
        StmtV::WhileOf(cv, bv) => s matches Statement::While { cond, body }
            && expr_matches(cond, cv) && stmts_match(body.statements@, bv),
        StmtV::BreakOf => s is Break,
        StmtV::ContinueOf => s is Continue,
        StmtV::ReturnOf(ov) => s matches Statement::Return(oe)
            && (match (oe, ov) {
                (Option::None, Option::None) => true,
                (Option::Some(e), Option::Some(ev)) => expr_matches(e, ev),
                _ => false,
            }),
        StmtV::Func(n, pvs, rv, bvs) => s matches Statement::Function(f)
            && f.name@ == n && params_match(f.params@, pvs)
            && (match (f.ret_ty, rv) {
                (Option::None, Option::None) => true,
                (Option::Some(t), Option::Some(tv)) => type_matches(t, tv),
                _ => false,
            })
            && stmts_match(f.body.statements@, bvs),
        StmtV::ExprOf(ev) => s matches Statement::Expr(e) && expr_matches(e, ev),
        StmtV::UseOf(m, av) => s matches Statement::Use { module, alias }
            && module@ == m
            && (match (alias, av) {
                (Option::None, Option::None) => true,
                (Option::Some(a), Option::Some(an)) => a@ == an,
                _ => false,
            }),
    }
}

pub open spec fn stmts_match(ss: Seq<Statement>, vs: Seq<StmtV>) -> bool
    decreases ss,
{
    ss.len() == vs.len()
        && (ss.len() == 0 || (stmt_matches(ss.first(), vs.first())
            && stmts_match(ss.drop_first(), vs.drop_first())))
}

pub open spec fn elifs_match(arms: Seq<(Expr, Block)>, vs: Seq<(ExprV, Seq<StmtV>)>) -> bool
    decreases arms,
{
    arms.len() == vs.len()
        && (arms.len() == 0 || (expr_matches(arms.first().0, vs.first().0)
            && stmts_match(arms.first().1.statements@, vs.first().1)
            && elifs_match(arms.drop_first(), vs.drop_first())))
}

/// Whether a token can open an expression.
pub open spec fn spec_starts_expr(k: TokenKind) -> bool {
    match k {
        TokenKind::Identifier(_) => true,
        TokenKind::Number(_) => true,
        TokenKind::StringLiteral(_) => true,
        TokenKind::FString(_) => true,
        TokenKind::True => true,
        TokenKind::False => true,
        TokenKind::Fn => true,
        TokenKind::LParen => true,
        TokenKind::Minus => true,
        TokenKind::Bang => true,
        TokenKind::Await => true,
        TokenKind::Spawn => true,
        _ => false,
    }
}

/// The first position at or after `pos` that holds no NEWLINE token.
pub open spec fn walk_skip_newlines(toks: Seq<Token>, pos: int) -> int
    decreases toks.len() - pos when 0 <= pos <= toks.len()
{
    if pos < toks.len() && toks[pos].kind is Newline {
        walk_skip_newlines(toks, pos + 1)
    } else {
        pos
    }
}

/// At least one NEWLINE, then the run consumed.
pub open spec fn walk_newlines(toks: Seq<Token>, pos: int) -> Option<int> {
    if 0 <= pos < toks.len() && toks[pos].kind is Newline {
        Some(walk_skip_newlines(toks, pos + 1))
    } else {
        None
    }
}

/// An identifier token's text.
pub open spec fn walk_identifier(toks: Seq<Token>, pos: int) -> Option<(Seq<char>, int)> {
    if 0 <= pos < toks.len() {
        match toks[pos].kind {
            TokenKind::Identifier(name) => Some((name@, pos + 1)),
            _ => None,
        }
    } else {
        None
    }
}

/// An identifier, or a keyword read as its word.
pub open spec fn walk_identifier_or_keyword(toks: Seq<Token>, pos: int) -> Option<(
    Seq<char>,
    int,
)> {
    if 0 <= pos < toks.len() {
        match toks[pos].kind {
            TokenKind::Identifier(name) => Some((name@, pos + 1)),
            TokenKind::Newline | TokenKind::Indent | TokenKind::Dedent | TokenKind::Eof
            | TokenKind::Number(_) | TokenKind::StringLiteral(_) | TokenKind::FString(_)
            | TokenKind::Colon | TokenKind::LParen | TokenKind::RParen | TokenKind::Comma
            | TokenKind::Equals | TokenKind::Plus | TokenKind::Minus | TokenKind::Star
            | TokenKind::Slash | TokenKind::Percent | TokenKind::Dot | TokenKind::DoubleDot
            | TokenKind::Arrow | TokenKind::Lt | TokenKind::Gt | TokenKind::LtEq
            | TokenKind::GtEq | TokenKind::EqEq | TokenKind::Neq | TokenKind::Bang
            | TokenKind::Amp | TokenKind::Pipe | TokenKind::PlusEq | TokenKind::MinusEq
            | TokenKind::StarEq | TokenKind::SlashEq => None,
            other => Some((other.spec_name(), pos + 1)),
        }
    } else {
        None
    }
}

pub open spec fn walk_colon(toks: Seq<Token>, pos: int) -> Option<int> {
    if 0 <= pos < toks.len() && toks[pos].kind is Colon {
        Some(pos + 1)
    } else {
        None
    }
}

pub open spec fn walk_rparen(toks: Seq<Token>, pos: int) -> Option<int> {
    if 0 <= pos < toks.len() && toks[pos].kind is RParen {
        Some(pos + 1)
    } else {
        None
    }
}

/// A type: an identifier, optionally with angle-bracketed type arguments.
pub open spec fn walk_type(toks: Seq<Token>, pos: int) -> Option<(TypeV, int)>
    decreases toks.len() - pos, 19int when 0 <= pos <= toks.len()
{
    match walk_identifier(toks, pos) {
        Option::Some((base, p)) => {
            if p < toks.len() && toks[p].kind is Lt {
                if p + 1 < toks.len() && toks[p + 1].kind is Gt {
                    Some((TypeV::Generic { base, args: Seq::empty() }, p + 2))
                } else if p + 1 > pos && p + 1 <= toks.len() {
                    match walk_type_args(toks, p + 1, Seq::empty()) {
                        Option::Some((args, p2)) => Some((TypeV::Generic { base, args }, p2)),
                        Option::None => None,
                    }
                } else {
                    None
                }
            } else {
                Some((TypeV::Simple(base), p))
            }
        },
        Option::None => None,
    }
}

/// The comma-separated type arguments up to the closing angle bracket.
pub open spec fn walk_type_args(toks: Seq<Token>, pos: int, acc: Seq<TypeV>) -> Option<(
    Seq<TypeV>,
    int,
)>
    decreases toks.len() - pos, 20int when 0 <= pos <= toks.len()
{
    match walk_type(toks, pos) {
        Option::Some((arg, p)) => {
            if !(pos < p <= toks.len()) {
                None
            } else if p < toks.len() && toks[p].kind is Comma {
                if p + 1 < toks.len() && toks[p + 1].kind is Gt {
                    Some((acc.push(arg), p + 2))
                } else {
                    walk_type_args(toks, p + 1, acc.push(arg))
                }
            } else if p < toks.len() && toks[p].kind is Gt {
                Some((acc.push(arg), p + 1))
            } else {
                None
            }
        },
        Option::None => None,
    }
}

/// A parameter list after its opening parenthesis; a trailing comma is
/// allowed.
pub open spec fn walk_params(toks: Seq<Token>, pos: int, acc: Seq<ParamV>) -> Option<(
    Seq<ParamV>,
    int,
)>
    decreases toks.len() - pos, 19int when 0 <= pos <= toks.len()
{
    if pos < toks.len() && toks[pos].kind is RParen && acc.len() == 0 {
        Some((acc, pos + 1))
    } else {
        walk_params_rest(toks, pos, acc)
    }
}

/// The parameter list past its first element (no empty-list check).
pub open spec fn walk_params_rest(toks: Seq<Token>, pos: int, acc: Seq<ParamV>) -> Option<(
    Seq<ParamV>,
    int,
)>
    decreases toks.len() - pos, 17int when 0 <= pos <= toks.len()
{
    match walk_identifier(toks, pos) {
        Option::Some((name, p2)) => {
            let with_ty: Option<(Option<TypeV>, int)> = if p2 < toks.len()
                && toks[p2].kind is Colon {
                if p2 + 1 > pos && p2 + 1 <= toks.len() {
                    match walk_type(toks, p2 + 1) {
                        Option::Some((t, p4)) => Some((Some(t), p4)),
                        Option::None => None,
                    }
                } else {
                    None
                }
            } else {
                Some((None, p2))
            };
            match with_ty {
                Option::Some((ty, p3)) => {
                    let param = ParamV { name, ty };
                    if !(pos < p3 <= toks.len()) {
                        None
                    } else if p3 < toks.len() && toks[p3].kind is Comma {
                        if p3 + 1 < toks.len() && toks[p3 + 1].kind is RParen {
                            Some((acc.push(param), p3 + 2))
                        } else {
                            walk_params_rest(toks, p3 + 1, acc.push(param))
                        }
                    } else if p3 < toks.len() && toks[p3].kind is RParen {
                        Some((acc.push(param), p3 + 1))
                    } else {
                        None
                    }
                },
                Option::None => None,
            }
        },
        Option::None => None,
    }
}

/// An atom: a literal, an identifier, a parenthesized expression, a lambda,
/// or an f-string atom.
pub open spec fn walk_atom(toks: Seq<Token>, pos: int) -> Option<(ExprV, int)>
    decreases toks.len() - pos, 2int when 0 <= pos <= toks.len()
{
    if pos >= toks.len() {
        None
    } else {
        match toks[pos].kind {
            TokenKind::StringLiteral(value) => Some((ExprV::Lit(LitV::Str(value@)), pos + 1)),
            TokenKind::Number(value) => Some((
                ExprV::Lit(LitV::Num(crate::numlit::spec_strip_underscores(value@))),
                pos + 1,
            )),
            TokenKind::True => Some((ExprV::Lit(LitV::Bool(true)), pos + 1)),
            TokenKind::False => Some((ExprV::Lit(LitV::Bool(false)), pos + 1)),
            TokenKind::FString(content) => Some((ExprV::FStringAtom(content@), pos + 1)),
            TokenKind::Identifier(name) => Some((ExprV::Ident(name@), pos + 1)),
            TokenKind::Fn => walk_lambda(toks, pos + 1),
            TokenKind::LParen => {
                match walk_expr(toks, pos + 1) {
                    Option::Some((e, p)) => {
                        match walk_rparen(toks, p) {
                            Option::Some(p2) => Some((e, p2)),
                            Option::None => None,
                        }
                    },
                    Option::None => None,
                }
            },
            _ => None,
        }
    }
}

/// The member-access run after an atom.
pub open spec fn walk_dots(toks: Seq<Token>, pos: int, acc: ExprV) -> Option<(ExprV, int)>
    decreases toks.len() - pos, 3int when 0 <= pos <= toks.len()
{
    if pos < toks.len() && toks[pos].kind is Dot {
        match walk_identifier_or_keyword(toks, pos + 1) {
            Option::Some((field, p2)) => {
                if pos < p2 <= toks.len() {
                    walk_dots(toks, p2, ExprV::Member(Box::new(acc), field))
                } else {
                    None
                }
            },
            Option::None => None,
        }
    } else {
        Some((acc, pos))
    }
}

/// The call-argument-list run after the member accesses.
pub open spec fn walk_calls(toks: Seq<Token>, pos: int, acc: ExprV) -> Option<(ExprV, int)>
    decreases toks.len() - pos, 4int when 0 <= pos <= toks.len()
{
    if pos < toks.len() && toks[pos].kind is LParen {
        match walk_args(toks, pos + 1, Seq::empty()) {
            Option::Some((args, p2)) => {
                if pos < p2 <= toks.len() {
                    walk_calls(toks, p2, ExprV::CallOf(Box::new(acc), args))
                } else {
                    None
                }
            },
            Option::None => None,
        }
    } else {
        Some((acc, pos))
    }
}

/// Postfix level: member accesses, then call argument lists.
pub open spec fn walk_postfix(toks: Seq<Token>, pos: int) -> Option<(ExprV, int)>
    decreases toks.len() - pos, 5int when 0 <= pos <= toks.len()
{
    match walk_atom(toks, pos) {
        Option::Some((first, p)) => {
            if pos < p <= toks.len() {
                match walk_dots(toks, p, first) {
                    Option::Some((e, p2)) => {
                        if pos < p2 <= toks.len() {
                            walk_calls(toks, p2, e)
                        } else {
                            None
                        }
                    },
                    Option::None => None,
                }
            } else {
                None
            }
        },
        Option::None => None,
    }
}

/// An `await` or `spawn` prefix over a postfix expression, or the postfix
/// expression itself.
pub open spec fn walk_awaitable(toks: Seq<Token>, pos: int) -> Option<(ExprV, int)>
    decreases toks.len() - pos, 6int when 0 <= pos <= toks.len()
{
    if pos < toks.len() && toks[pos].kind is Await {
        match walk_postfix(toks, pos + 1) {
            Option::Some((e, p)) => Some((ExprV::AwaitOf(Box::new(e)), p)),
            Option::None => None,
        }
    } else if pos < toks.len() && toks[pos].kind is Spawn {
        match walk_postfix(toks, pos + 1) {
            Option::Some((e, p)) => Some((ExprV::SpawnOf(Box::new(e)), p)),
            Option::None => None,
        }
    } else {
        walk_postfix(toks, pos)
    }
}

/// One optional `-` or `!`.
pub open spec fn walk_unary(toks: Seq<Token>, pos: int) -> Option<(ExprV, int)>
    decreases toks.len() - pos, 7int when 0 <= pos <= toks.len()
{
    if pos < toks.len() && toks[pos].kind is Minus {
        match walk_awaitable(toks, pos + 1) {
            Option::Some((e, p)) => Some((ExprV::Unary(UnaryOp::Neg, Box::new(e)), p)),
            Option::None => None,
        }
    } else if pos < toks.len() && toks[pos].kind is Bang {
        match walk_awaitable(toks, pos + 1) {
            Option::Some((e, p)) => Some((ExprV::Unary(UnaryOp::Not, Box::new(e)), p)),
            Option::None => None,
        }
    } else {
        walk_awaitable(toks, pos)
    }
}

pub open spec fn spec_product_op(k: TokenKind) -> Option<BinaryOp> {
    match k {
        TokenKind::Star => Some(BinaryOp::Mul),
        TokenKind::Slash => Some(BinaryOp::Div),
        TokenKind::Percent => Some(BinaryOp::Mod),
        _ => None,
    }
}

pub open spec fn spec_sum_op(k: TokenKind) -> Option<BinaryOp> {
    match k {
        TokenKind::Plus => Some(BinaryOp::Add),
        TokenKind::Minus => Some(BinaryOp::Sub),
        _ => None,
    }
}

pub open spec fn spec_comparison_op(k: TokenKind) -> Option<BinaryOp> {
    match k {
        TokenKind::EqEq => Some(BinaryOp::Eq),
        TokenKind::Neq => Some(BinaryOp::Ne),
        TokenKind::Lt => Some(BinaryOp::Lt),
        TokenKind::Gt => Some(BinaryOp::Gt),
        TokenKind::LtEq => Some(BinaryOp::LtEq),
        TokenKind::GtEq => Some(BinaryOp::GtEq),
        _ => None,
    }
}

pub open spec fn spec_logical_op(k: TokenKind) -> Option<BinaryOp> {
    match k {
        TokenKind::Amp => Some(BinaryOp::And),
        TokenKind::Pipe => Some(BinaryOp::Or),
        _ => None,
    }
}

/// The left-associative multiplicative run after its first operand.
pub open spec fn walk_product_rest(toks: Seq<Token>, pos: int, acc: ExprV) -> Option<(
    ExprV,
    int,
)>
    decreases toks.len() - pos, 8int when 0 <= pos <= toks.len()
{
    if pos < toks.len() && spec_product_op(toks[pos].kind) is Some {
        let op = spec_product_op(toks[pos].kind)->0;
        match walk_unary(toks, pos + 1) {
            Option::Some((rhs, p2)) => {
                if pos < p2 <= toks.len() {
                    walk_product_rest(toks, p2, ExprV::Binary(op, Box::new(acc), Box::new(rhs)))
                } else {
                    None
                }
            },
            Option::None => None,
        }
    } else {
        Some((acc, pos))
    }
}

/// Multiplicative level, left-associative.
pub open spec fn walk_product(toks: Seq<Token>, pos: int) -> Option<(ExprV, int)>
    decreases toks.len() - pos, 9int when 0 <= pos <= toks.len()
{
    match walk_unary(toks, pos) {
        Option::Some((first, p)) => {
            if pos < p <= toks.len() {
                walk_product_rest(toks, p, first)
            } else {
                None
            }
        },
        Option::None => None,
    }
}

/// The left-associative additive run after its first operand.
pub open spec fn walk_sum_rest(toks: Seq<Token>, pos: int, acc: ExprV) -> Option<(ExprV, int)>
    decreases toks.len() - pos, 10int when 0 <= pos <= toks.len()
{
    if pos < toks.len() && spec_sum_op(toks[pos].kind) is Some {
        let op = spec_sum_op(toks[pos].kind)->0;
        match walk_product(toks, pos + 1) {
            Option::Some((rhs, p2)) => {
                if pos < p2 <= toks.len() {
                    walk_sum_rest(toks, p2, ExprV::Binary(op, Box::new(acc), Box::new(rhs)))
                } else {
                    None
                }
            },
            Option::None => None,
        }
    } else {
        Some((acc, pos))
    }
}

/// Additive level, left-associative.
pub open spec fn walk_sum(toks: Seq<Token>, pos: int) -> Option<(ExprV, int)>
    decreases toks.len() - pos, 11int when 0 <= pos <= toks.len()
{
    match walk_product(toks, pos) {
        Option::Some((first, p)) => {
            if pos < p <= toks.len() {
                walk_sum_rest(toks, p, first)
            } else {
                None
            }
        },
        Option::None => None,
    }
}

/// Range level: `a .. b`, consumed at exactly one level.
pub open spec fn walk_range(toks: Seq<Token>, pos: int) -> Option<(ExprV, int)>
    decreases toks.len() - pos, 12int when 0 <= pos <= toks.len()
{
    match walk_sum(toks, pos) {
        Option::Some((start, p)) => {
            if p < toks.len() && toks[p].kind is DoubleDot {
                if pos < p + 1 && p + 1 <= toks.len() {
                    match walk_sum(toks, p + 1) {
                        Option::Some((end, p2)) => Some((
                            ExprV::RangeOf(Box::new(start), Box::new(end)),
                            p2,
                        )),
                        Option::None => None,
                    }
                } else {
                    None
                }
            } else {
                Some((start, p))
            }
        },
        Option::None => None,
    }
}

/// The left-associative comparison run after its first operand.
pub open spec fn walk_comparison_rest(toks: Seq<Token>, pos: int, acc: ExprV) -> Option<(
    ExprV,
    int,
)>
    decreases toks.len() - pos, 13int when 0 <= pos <= toks.len()
{
    if pos < toks.len() && spec_comparison_op(toks[pos].kind) is Some {
        let op = spec_comparison_op(toks[pos].kind)->0;
        match walk_range(toks, pos + 1) {
            Option::Some((rhs, p2)) => {
                if pos < p2 <= toks.len() {
                    walk_comparison_rest(
                        toks,
                        p2,
                        ExprV::Binary(op, Box::new(acc), Box::new(rhs)),
                    )
                } else {
                    None
                }
            },
            Option::None => None,
        }
    } else {
        Some((acc, pos))
    }
}

/// Comparison level, left-associative.
pub open spec fn walk_comparison(toks: Seq<Token>, pos: int) -> Option<(ExprV, int)>
    decreases toks.len() - pos, 14int when 0 <= pos <= toks.len()
{
    match walk_range(toks, pos) {
        Option::Some((first, p)) => {
            if pos < p <= toks.len() {
                walk_comparison_rest(toks, p, first)
            } else {
                None
            }
        },
        Option::None => None,
    }
}

/// The left-associative logical run after its first operand.
pub open spec fn walk_logical_rest(toks: Seq<Token>, pos: int, acc: ExprV) -> Option<(
    ExprV,
    int,
)>
    decreases toks.len() - pos, 15int when 0 <= pos <= toks.len()
{
    if pos < toks.len() && spec_logical_op(toks[pos].kind) is Some {
        let op = spec_logical_op(toks[pos].kind)->0;
        match walk_comparison(toks, pos + 1) {
            Option::Some((rhs, p2)) => {
                if pos < p2 <= toks.len() {
                    walk_logical_rest(toks, p2, ExprV::Binary(op, Box::new(acc), Box::new(rhs)))
                } else {
                    None
                }
            },
            Option::None => None,
        }
    } else {
        Some((acc, pos))
    }
}

/// An expression: the logical level, left-associative, lowest precedence.
pub open spec fn walk_expr(toks: Seq<Token>, pos: int) -> Option<(ExprV, int)>
    decreases toks.len() - pos, 16int when 0 <= pos <= toks.len()
{
    match walk_comparison(toks, pos) {
        Option::Some((first, p)) => {
            if pos < p <= toks.len() {
                walk_logical_rest(toks, p, first)
            } else {
                None
            }
        },
        Option::None => None,
    }
}

/// A call's argument list after its opening parenthesis; a trailing comma
/// is allowed.
pub open spec fn walk_args(toks: Seq<Token>, pos: int, acc: Seq<ExprV>) -> Option<(
    Seq<ExprV>,
    int,
)>
    decreases toks.len() - pos, 18int when 0 <= pos <= toks.len()
{
    if pos < toks.len() && toks[pos].kind is RParen && acc.len() == 0 {
        Some((acc, pos + 1))
    } else {
        walk_args_rest(toks, pos, acc)
    }
}

/// The argument list past its first element.
pub open spec fn walk_args_rest(toks: Seq<Token>, pos: int, acc: Seq<ExprV>) -> Option<(
    Seq<ExprV>,
    int,
)>
    decreases toks.len() - pos, 17int when 0 <= pos <= toks.len()
{
    match walk_expr(toks, pos) {
        Option::Some((arg, p)) => {
            if !(pos < p <= toks.len()) {
                None
            } else if p < toks.len() && toks[p].kind is Comma {
                if p + 1 < toks.len() && toks[p + 1].kind is RParen {
                    Some((acc.push(arg), p + 2))
                } else {
                    walk_args_rest(toks, p + 1, acc.push(arg))
                }
            } else if p < toks.len() && toks[p].kind is RParen {
                Some((acc.push(arg), p + 1))
            } else {
                None
            }
        },
        Option::None => None,
    }
}

/// A simplified statement inside a lambda body: a return or an expression,
/// its trailing newline run consumed.
pub open spec fn walk_lambda_stmt(toks: Seq<Token>, pos: int) -> Option<(StmtV, int)>
    decreases toks.len() - pos, 18int when 0 <= pos <= toks.len()
{
    if pos < toks.len() && toks[pos].kind is Return {
        let stepped: Option<(Option<ExprV>, int)> = if pos + 1 < toks.len()
            && spec_starts_expr(toks[pos + 1].kind) {
            match walk_expr(toks, pos + 1) {
                Option::Some((e, p2)) => Some((Some(e), p2)),
                Option::None => None,
            }
        } else {
            Some((None, pos + 1))
        };
        match stepped {
            Option::Some((value, p)) => {
                if 0 <= p <= toks.len() {
                    Some((StmtV::ReturnOf(value), walk_skip_newlines(toks, p)))
                } else {
                    None
                }
            },
            Option::None => None,
        }
    } else {
        match walk_expr(toks, pos) {
            Option::Some((e, p)) => {
                if 0 <= p <= toks.len() {
                    Some((StmtV::ExprOf(e), walk_skip_newlines(toks, p)))
                } else {
                    None
                }
            },
            Option::None => None,
        }
    }
}

/// The lambda body's statement run past its first statement.
pub open spec fn walk_lambda_stmts_rest(toks: Seq<Token>, pos: int, acc: Seq<StmtV>) -> Option<(
    Seq<StmtV>,
    int,
)>
    decreases toks.len() - pos, 19int when 0 <= pos <= toks.len()
{
    if pos < toks.len()
        && (toks[pos].kind is Return || spec_starts_expr(toks[pos].kind)) {
        match walk_lambda_stmt(toks, pos) {
            Option::Some((st, p)) => {
                if pos < p <= toks.len() {
                    walk_lambda_stmts_rest(toks, p, acc.push(st))
                } else {
                    None
                }
            },
            Option::None => None,
        }
    } else {
        Some((acc, pos))
    }
}

/// A lambda after its `fn` token: optional parameters, optional return
/// type, a colon, then an inline expression body or newline-separated
/// simple statements.
pub open spec fn walk_lambda(toks: Seq<Token>, pos: int) -> Option<(ExprV, int)>
    decreases toks.len() - pos, 20int when 0 <= pos <= toks.len()
{
    let with_params: Option<(Seq<ParamV>, int)> = if pos < toks.len()
        && toks[pos].kind is LParen {
        walk_params(toks, pos + 1, Seq::empty())
    } else {
        Some((Seq::empty(), pos))
    };
    match with_params {
        Option::Some((params, p1)) => {
            let with_ret: Option<(Option<TypeV>, int)> = if pos <= p1 <= toks.len()
                && p1 < toks.len() && toks[p1].kind is Arrow {
                match walk_type(toks, p1 + 1) {
                    Option::Some((t, p2)) => Some((Some(t), p2)),
                    Option::None => None,
                }
            } else if pos <= p1 <= toks.len() {
                Some((None, p1))
            } else {
                None
            };
            match with_ret {
                Option::Some((ret, p3)) => {
                    if !(pos <= p3 <= toks.len()) {
                        None
                    } else {
                        match walk_colon(toks, p3) {
                            Option::Some(p4) => {
                                if p4 < toks.len() && toks[p4].kind is Newline {
                                    let p5 = walk_skip_newlines(toks, p4);
                                    if pos < p5 <= toks.len() {
                                        match walk_lambda_stmt(toks, p5) {
                                            Option::Some((first, p6)) => {
                                                if pos < p6 <= toks.len() {
                                                    match walk_lambda_stmts_rest(
                                                        toks,
                                                        p6,
                                                        seq![first],
                                                    ) {
                                                        Option::Some((body, p7)) => Some((
                                                            ExprV::Lambda(params, ret, body),
                                                            p7,
                                                        )),
                                                        Option::None => None,
                                                    }
                                                } else {
                                                    None
                                                }
                                            },
                                            Option::None => None,
                                        }
                                    } else {
                                        None
                                    }
                                } else {
                                    match walk_expr(toks, p4) {
                                        Option::Some((body_expr, p5)) => Some((
                                            ExprV::Lambda(
                                                params,
                                                ret,
                                                seq![StmtV::ExprOf(body_expr)],
                                            ),
                                            p5,
                                        )),
                                        Option::None => None,
                                    }
                                }
                            },
                            Option::None => None,
                        }
                    }
                },
                Option::None => None,
            }
        },
        Option::None => None,
    }
}

/// A block: INDENT, one or more statements, DEDENT.
pub open spec fn walk_block(toks: Seq<Token>, pos: int) -> Option<(Seq<StmtV>, int)>
    decreases toks.len() - pos, 21int when 0 <= pos <= toks.len()
{
    if !(pos < toks.len() && toks[pos].kind is Indent) {
        None
    } else {
        match walk_stmt(toks, pos + 1) {
            Option::Some((first, p2)) => {
                if pos < p2 <= toks.len() {
                    match walk_block_stmts(toks, p2, seq![first]) {
                        Option::Some((stmts, p3)) => {
                            if p3 < toks.len() && toks[p3].kind is Dedent {
                                Some((stmts, p3 + 1))
                            } else {
                                None
                            }
                        },
                        Option::None => None,
                    }
                } else {
                    None
                }
            },
            Option::None => None,
        }
    }
}

/// The block's statement run until the DEDENT.
pub open spec fn walk_block_stmts(toks: Seq<Token>, pos: int, acc: Seq<StmtV>) -> Option<(
    Seq<StmtV>,
    int,
)>
    decreases toks.len() - pos, 23int when 0 <= pos <= toks.len()
{
    if pos < toks.len() && !(toks[pos].kind is Dedent) {
        match walk_stmt(toks, pos) {
            Option::Some((st, p)) => {
                if pos < p <= toks.len() {
                    walk_block_stmts(toks, p, acc.push(st))
                } else {
                    None
                }
            },
            Option::None => None,
        }
    } else {
        Some((acc, pos))
    }
}

/// The `elif` arm run, then an optional `else` arm.
pub open spec fn walk_elifs(
    toks: Seq<Token>,
    pos: int,
    acc: Seq<(ExprV, Seq<StmtV>)>,
) -> Option<(Seq<(ExprV, Seq<StmtV>)>, Option<Seq<StmtV>>, int)>
    decreases toks.len() - pos, 25int when 0 <= pos <= toks.len()
{
    if pos < toks.len() && toks[pos].kind is Elif {
        match walk_expr(toks, pos + 1) {
            Option::Some((econd, q1)) => {
                if !(pos < q1 <= toks.len()) {
                    None
                } else {
                    match walk_colon(toks, q1) {
                        Option::Some(q2) => {
                            match walk_newlines(toks, q2) {
                                Option::Some(q3) => {
                                    if pos < q3 <= toks.len() {
                                        match walk_block(toks, q3) {
                                            Option::Some((eblock, q4)) => {
                                                if pos < q4 <= toks.len() {
                                                    walk_elifs(
                                                        toks,
                                                        q4,
                                                        acc.push((econd, eblock)),
                                                    )
                                                } else {
                                                    None
                                                }
                                            },
                                            Option::None => None,
                                        }
                                    } else {
                                        None
                                    }
                                },
                                Option::None => None,
                            }
                        },
                        Option::None => None,
                    }
                }
            },
            Option::None => None,
        }
    } else if pos < toks.len() && toks[pos].kind is Else {
        match walk_colon(toks, pos + 1) {
            Option::Some(q1) => {
                match walk_newlines(toks, q1) {
                    Option::Some(q2) => {
                        if pos < q2 <= toks.len() {
                            match walk_block(toks, q2) {
                                Option::Some((eblock, q3)) => Some((acc, Some(eblock), q3)),
                                Option::None => None,
                            }
                        } else {
                            None
                        }
                    },
                    Option::None => None,
                }
            },
            Option::None => None,
        }
    } else {
        Some((acc, None, pos))
    }
}

/// An `if` statement after its `if` token.
pub open spec fn walk_if(toks: Seq<Token>, pos: int) -> Option<(StmtV, int)>
    decreases toks.len() - pos, 24int when 0 <= pos <= toks.len()
{
    match walk_expr(toks, pos) {
        Option::Some((cond, p1)) => {
            if !(pos < p1 <= toks.len()) {
                None
            } else {
                match walk_colon(toks, p1) {
                    Option::Some(p2) => {
                        match walk_newlines(toks, p2) {
                            Option::Some(p3) => {
                                if pos < p3 <= toks.len() {
                                    match walk_block(toks, p3) {
                                        Option::Some((then_block, p4)) => {
                                            if pos < p4 <= toks.len() {
                                                match walk_elifs(toks, p4, Seq::empty()) {
                                                    Option::Some((elifs, els, p5)) => Some((
                                                        StmtV::IfOf(
                                                            Box::new(cond),
                                                            then_block,
                                                            elifs,
                                                            els,
                                                        ),
                                                        p5,
                                                    )),
                                                    Option::None => None,
                                                }
                                            } else {
                                                None
                                            }
                                        },
                                        Option::None => None,
                                    }
                                } else {
                                    None
                                }
                            },
                            Option::None => None,
                        }
                    },
                    Option::None => None,
                }
            }
        },
        Option::None => None,
    }
}

/// One statement, its trailing newline run consumed.
/// The `print(...)` statement after dispatch on its `print` token.
pub open spec fn walk_print_stmt(toks: Seq<Token>, pos: int) -> Option<(StmtV, int)>
    decreases toks.len() - pos, 21int when 0 <= pos <= toks.len()
{
    if !(pos + 1 < toks.len() && toks[pos + 1].kind is LParen) {
        None
    } else {
        match walk_expr(toks, pos + 2) {
            Option::Some((arg, p1)) => {
                if !(pos < p1 <= toks.len()) {
                    None
                } else {
                    match walk_rparen(toks, p1) {
                        Option::Some(p2) => Some((
                            StmtV::ExprOf(ExprV::CallOf(
                                Box::new(ExprV::Ident("print"@)),
                                seq![arg],
                            )),
                            walk_skip_newlines(toks, p2),
                        )),
                        Option::None => None,
                    }
                }
            },
            Option::None => None,
        }
    }
}

/// The `use ns:name [as alias]` statement after dispatch on its `use` token.
pub open spec fn walk_use_stmt(toks: Seq<Token>, pos: int) -> Option<(StmtV, int)>
    decreases toks.len() - pos, 21int when 0 <= pos <= toks.len()
{
    match walk_identifier(toks, pos + 1) {
        Option::Some((ns, p1)) => {
            match walk_colon(toks, p1) {
                Option::Some(p2) => {
                    match walk_identifier(toks, p2) {
                        Option::Some((nm, p3)) => {
                            let with_alias: Option<(Option<Seq<char>>, int)> = if p3
                                < toks.len() && toks[p3].kind is As {
                                match walk_identifier(toks, p3 + 1) {
                                    Option::Some((al, p4)) => Some((Some(al), p4)),
                                    Option::None => None,
                                }
                            } else {
                                Some((None, p3))
                            };
                            match with_alias {
                                Option::Some((alias, p)) => {
                                    if 0 <= p <= toks.len() {
                                        Some((
                                            StmtV::UseOf(ns + ":"@ + nm, alias),
                                            walk_skip_newlines(toks, p),
                                        ))
                                    } else {
                                        None
                                    }
                                },
                                Option::None => None,
                            }
                        },
                        Option::None => None,
                    }
                },
                Option::None => None,
            }
        },
        Option::None => None,
    }
}

/// The `for var in iterable:` statement after dispatch on its `for` token.
pub open spec fn walk_for_stmt(toks: Seq<Token>, pos: int) -> Option<(StmtV, int)>
    decreases toks.len() - pos, 21int when 0 <= pos <= toks.len()
{
    match walk_identifier(toks, pos + 1) {
        Option::Some((var, p1)) => {
            if !(p1 < toks.len() && toks[p1].kind is In) {
                None
            } else if pos < p1 + 1 && p1 + 1 <= toks.len() {
                match walk_expr(toks, p1 + 1) {
                    Option::Some((iterable, p2)) => {
                        if !(pos < p2 <= toks.len()) {
                            None
                        } else {
                            match walk_colon(toks, p2) {
                                Option::Some(p3) => {
                                    match walk_newlines(toks, p3) {
                                        Option::Some(p4) => {
                                            if pos < p4 <= toks.len() {
                                                match walk_block(toks, p4) {
                                                    Option::Some((body, p5)) => {
                                                        if 0 <= p5 <= toks.len() {
                                                            Some((
                                                                StmtV::ForOf(
                                                                    var,
                                                                    iterable,
                                                                    body,
                                                                ),
                                                                walk_skip_newlines(
                                                                    toks,
                                                                    p5,
                                                                ),
                                                            ))
                                                        } else {
                                                            None
                                                        }
                                                    },
                                                    Option::None => None,
                                                }
                                            } else {
                                                None
                                            }
                                        },
                                        Option::None => None,
                                    }
                                },
                                Option::None => None,
                            }
                        }
                    },
                    Option::None => None,
                }
            } else {
                None
            }
        },
        Option::None => None,
    }
}

/// The `while cond:` statement after dispatch on its `while` token.
pub open spec fn walk_while_stmt(toks: Seq<Token>, pos: int) -> Option<(StmtV, int)>
    decreases toks.len() - pos, 21int when 0 <= pos <= toks.len()
{
    match walk_expr(toks, pos + 1) {
        Option::Some((cond, p1)) => {
            if !(pos < p1 <= toks.len()) {
                None
            } else {
                match walk_colon(toks, p1) {
                    Option::Some(p2) => {
                        match walk_newlines(toks, p2) {
                            Option::Some(p3) => {
                                if pos < p3 <= toks.len() {
                                    match walk_block(toks, p3) {
                                        Option::Some((body, p4)) => {
                                            if 0 <= p4 <= toks.len() {
                                                Some((
                                                    StmtV::WhileOf(cond, body),
                                                    walk_skip_newlines(toks, p4),
                                                ))
                                            } else {
                                                None
                                            }
                                        },
                                        Option::None => None,
                                    }
                                } else {
                                    None
                                }
                            },
                            Option::None => None,
                        }
                    },
                    Option::None => None,
                }
            }
        },
        Option::None => None,
    }
}

/// An assignment (plain or compound, desugared) or an expression statement,
/// after dispatch on the opening identifier, whose text is `name`.
pub open spec fn walk_assign_stmt(toks: Seq<Token>, pos: int, name: Seq<char>) -> Option<(
    StmtV,
    int,
)>
    decreases toks.len() - pos, 21int when 0 <= pos <= toks.len()
{
    let compound: Option<Option<BinaryOp>> = if pos + 1 < toks.len() {
        match toks[pos + 1].kind {
            TokenKind::Equals => Some(None),
            TokenKind::PlusEq => Some(Some(BinaryOp::Add)),
            TokenKind::MinusEq => Some(Some(BinaryOp::Sub)),
            TokenKind::StarEq => Some(Some(BinaryOp::Mul)),
            TokenKind::SlashEq => Some(Some(BinaryOp::Div)),
            _ => None,
        }
    } else {
        None
    };
    match compound {
        Option::Some(op) => {
            match walk_expr(toks, pos + 2) {
                Option::Some((rhs, p1)) => {
                    let e = match op {
                        Option::Some(bop) => ExprV::Binary(
                            bop,
                            Box::new(ExprV::Ident(name)),
                            Box::new(rhs),
                        ),
                        Option::None => rhs,
                    };
                    if 0 <= p1 <= toks.len() {
                        Some((
                            StmtV::Assign(name, e),
                            walk_skip_newlines(toks, p1),
                        ))
                    } else {
                        None
                    }
                },
                Option::None => None,
            }
        },
        Option::None => {
            match walk_expr(toks, pos) {
                Option::Some((e, p1)) => {
                    if 0 <= p1 <= toks.len() {
                        Some((StmtV::ExprOf(e), walk_skip_newlines(toks, p1)))
                    } else {
                        None
                    }
                },
                Option::None => None,
            }
        },
    }
}

pub open spec fn walk_stmt(toks: Seq<Token>, pos: int) -> Option<(StmtV, int)>
    decreases toks.len() - pos, 22int when 0 <= pos <= toks.len()
{
    if pos >= toks.len() {
        None
    } else {
        match toks[pos].kind {
            TokenKind::Print => walk_print_stmt(toks, pos),
            TokenKind::Return => {
                let stepped: Option<(Option<ExprV>, int)> = if pos + 1 < toks.len()
                    && spec_starts_expr(toks[pos + 1].kind) {
                    match walk_expr(toks, pos + 1) {
                        Option::Some((e, p2)) => Some((Some(e), p2)),
                        Option::None => None,
                    }
                } else {
                    Some((None, pos + 1))
                };
                match stepped {
                    Option::Some((value, p)) => {
                        if 0 <= p <= toks.len() {
                            Some((StmtV::ReturnOf(value), walk_skip_newlines(toks, p)))
                        } else {
                            None
                        }
                    },
                    Option::None => None,
                }
            },
            TokenKind::Let => {
                match walk_identifier(toks, pos + 1) {
                    Option::Some((name, p1)) => {
                        if !(p1 < toks.len() && toks[p1].kind is Equals) {
                            None
                        } else if pos < p1 + 1 && p1 + 1 <= toks.len() {
                            match walk_expr(toks, p1 + 1) {
                                Option::Some((e, p2)) => {
                                    if 0 <= p2 <= toks.len() {
                                        Some((
                                            StmtV::LetOf(name, e),
                                            walk_skip_newlines(toks, p2),
                                        ))
                                    } else {
                                        None
                                    }
                                },
                                Option::None => None,
                            }
                        } else {
                            None
                        }
                    },
                    Option::None => None,
                }
            },
            TokenKind::Break => Some((StmtV::BreakOf, walk_skip_newlines(toks, pos + 1))),
            TokenKind::Continue => Some((
                StmtV::ContinueOf,
                walk_skip_newlines(toks, pos + 1),
            )),
            TokenKind::Use => walk_use_stmt(toks, pos),
            TokenKind::If => {
                match walk_if(toks, pos + 1) {
                    Option::Some((st, p)) => {
                        if 0 <= p <= toks.len() {
                            Some((st, walk_skip_newlines(toks, p)))
                        } else {
                            None
                        }
                    },
                    Option::None => None,
                }
            },
            TokenKind::For => walk_for_stmt(toks, pos),
            TokenKind::While => walk_while_stmt(toks, pos),
            TokenKind::Identifier(name) => walk_assign_stmt(toks, pos, name@),
            _ => {
                match walk_expr(toks, pos) {
                    Option::Some((e, p1)) => {
                        if 0 <= p1 <= toks.len() {
                            Some((StmtV::ExprOf(e), walk_skip_newlines(toks, p1)))
                        } else {
                            None
                        }
                    },
                    Option::None => None,
                }
            },
        }
    }
}

/// A top-level function definition after its `fn` token.
pub open spec fn walk_function(toks: Seq<Token>, pos: int) -> Option<(StmtV, int)>
    decreases toks.len() - pos, 22int when 0 <= pos <= toks.len()
{
    match walk_identifier(toks, pos) {
        Option::Some((name, p1)) => {
            let with_params: Option<(Seq<ParamV>, int)> = if p1 < toks.len()
                && toks[p1].kind is LParen {
                if pos < p1 + 1 && p1 + 1 <= toks.len() {
                    walk_params(toks, p1 + 1, Seq::empty())
                } else {
                    None
                }
            } else {
                Some((Seq::empty(), p1))
            };
            match with_params {
                Option::Some((params, p2)) => {
                    let with_ret: Option<(Option<TypeV>, int)> = if pos < p2 <= toks.len()
                        && p2 < toks.len() && toks[p2].kind is Arrow {
                        match walk_type(toks, p2 + 1) {
                            Option::Some((t, p3)) => Some((Some(t), p3)),
                            Option::None => None,
                        }
                    } else if pos < p2 <= toks.len() {
                        Some((None, p2))
                    } else {
                        None
                    };
                    match with_ret {
                        Option::Some((ret, p4)) => {
                            if !(pos < p4 <= toks.len()) {
                                None
                            } else {
                                match walk_colon(toks, p4) {
                                    Option::Some(p5) => {
                                        match walk_newlines(toks, p5) {
                                            Option::Some(p6) => {
                                                if pos < p6 <= toks.len() {
                                                    match walk_block(toks, p6) {
                                                        Option::Some((body, p7)) => {
                                                            if 0 <= p7 <= toks.len() {
                                                                Some((
                                                                    StmtV::Func(
                                                                        name,
                                                                        params,
                                                                        ret,
                                                                        body,
                                                                    ),
                                                                    walk_skip_newlines(
                                                                        toks,
                                                                        p7,
                                                                    ),
                                                                ))
                                                            } else {
                                                                None
                                                            }
                                                        },
                                                        Option::None => None,
                                                    }
                                                } else {
                                                    None
                                                }
                                            },
                                            Option::None => None,
                                        }
                                    },
                                    Option::None => None,
                                }
                            }
                        },
                        Option::None => None,
                    }
                },
                Option::None => None,
            }
        },
        Option::None => None,
    }
}

/// The top-level item run until the EOF token.
pub open spec fn walk_items(toks: Seq<Token>, pos: int, acc: Seq<StmtV>) -> Option<(
    Seq<StmtV>,
    int,
)>
    decreases toks.len() - pos, 26int when 0 <= pos <= toks.len()
{
    if pos < toks.len() && !(toks[pos].kind is Eof) {
        let item: Option<(StmtV, int)> = if toks[pos].kind is Fn && pos + 1 < toks.len()
            && toks[pos + 1].kind matches TokenKind::Identifier(_) {
            walk_function(toks, pos + 1)
        } else {
            walk_stmt(toks, pos)
        };
        match item {
            Option::Some((st, p2)) => {
                if pos < p2 <= toks.len() {
                    walk_items(toks, p2, acc.push(st))
                } else {
                    None
                }
            },
            Option::None => None,
        }
    } else {
        Some((acc, pos))
    }
}

/// A whole token stream: leading newlines, the items, then the EOF token as
/// the last token of the stream.
pub open spec fn walk_program(toks: Seq<Token>) -> Option<(Seq<StmtV>, int)>
    decreases toks.len(), 27int
{
    let p = walk_skip_newlines(toks, 0);
    if 0 <= p <= toks.len() {
        match walk_items(toks, p, Seq::empty()) {
            Option::Some((stmts, p2)) => {
                if p2 < toks.len() && toks[p2].kind is Eof && p2 + 1 == toks.len() {
                    Some((stmts, p2 + 1))
                } else {
                    None
                }
            },
            Option::None => None,
        }
    } else {
        None
    }
}

} // verus!
