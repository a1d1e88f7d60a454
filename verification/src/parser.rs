//! The parser: a token stream to a Program, or a diagnostic.
//!
//! The grammar is recursive descent with operator precedence, low to high:
//! logical `& |`, comparison, range `..`, additive, multiplicative, unary,
//! postfix (member access then calls), atoms. All binary operators are
//! left-associative; range is non-associative and consumed at exactly one
//! level. Statements are terminated by their newline or dedent; blocks are
//! bracketed by INDENT/DEDENT.
//!
//! A successful parse consumes every token: the EOF token is the last token
//! read, and nothing may follow it.

use vstd::prelude::*;

use crate::ast::{
    BinaryOp, Block, Expr, FStringPart, Function, Literal, Param, Program, Statement, Type,
    UnaryOp,
};
use crate::grammar::{
    expr_matches, exprs_match, param_matches, params_match, spec_starts_expr, stmt_matches,
    stmts_match, type_matches, types_match, walk_args, walk_args_rest, walk_atom, walk_awaitable, walk_block,
    walk_block_stmts, walk_calls, walk_colon, walk_comparison, walk_comparison_rest, walk_dots,
    walk_elifs, walk_expr, walk_function, walk_identifier, walk_identifier_or_keyword, walk_if,
    walk_items, walk_lambda, walk_lambda_stmt, walk_lambda_stmts_rest, walk_logical_rest,
    walk_newlines,
    walk_params, walk_params_rest, walk_postfix, walk_product, walk_product_rest, walk_program,
    walk_range, walk_rparen, walk_skip_newlines, walk_stmt, walk_sum, walk_sum_rest, walk_type,
    walk_type_args, walk_unary, ExprV, LitV, ParamV, StmtV, TypeV,
};
use crate::lexer::tokenize;
use crate::numlit::strip_underscores;
use crate::span::Span;
use crate::strutil::{chars_of, chars_to_string, clone_string};
use crate::token::{Token, TokenKind};

verus! {

#[derive(Debug, Clone)]
pub struct ParserError {
    pub message: String,
    pub span: Span,
}

impl ParserError {
    /// Renders the error as an error-severity diagnostic at its span.
    pub fn to_diagnostic(&self, source_id: &str) -> (d: crate::errors::Diagnostic)
        ensures
            d.spec_severity() == crate::errors::DiagnosticSeverity::Error,
            d.spec_source_id() == source_id@,
            d.spec_span() == self.span,
            d.spec_message() == self.message@,
    {
        crate::errors::Diagnostic::new(
            crate::errors::DiagnosticSeverity::Error,
            String::from_str(source_id),
            self.span,
            clone_string(&self.message),
        )
    }
}

/// One parsing step: the parsed value plus the position after it, or an
/// error.
pub type ParseStep<T> = Result<(T, usize), ParserError>;

/// How deep nested f-string re-parses may go before a brace group degrades to
/// a bare identifier reference.
pub const FSTRING_DEPTH: u32 = 64;

fn tok_span(toks: &Vec<Token>, p: usize) -> (s: Span) {
    if p < toks.len() {
        toks[p].span
    } else if toks.len() > 0 {
        toks[toks.len() - 1].span
    } else {
        Span::new(0, 0)
    }
}

/// The diagnostic for an unexpected token or a premature end of input.
fn unexpected(toks: &Vec<Token>, p: usize) -> (e: ParserError) {
    let span = tok_span(toks, p);
    if p < toks.len() {
        let mut message = String::from_str("unexpected token: ");
        message.append(toks[p].kind.name());
        ParserError { message, span }
    } else {
        ParserError { message: String::from_str("unexpected end of input"), span }
    }
}

/// Whether a token can open an expression.
fn starts_expr(k: &TokenKind) -> (r: bool)
    ensures
        r == spec_starts_expr(*k),
{
    match k {
        TokenKind::Identifier(_) => true,
        TokenKind::Number(_) => true,
        TokenKind::StringLiteral(_) => true,
        TokenKind::FString(_) => true,
        TokenKind::True => true,
        TokenKind::False => true,
        TokenKind::Fn => true,
        TokenKind::LParen => true,
        TokenKind::Minus => true,
        TokenKind::Bang => true,
        TokenKind::Await => true,
        TokenKind::Spawn => true,
        _ => false,
    }
}

/// Consumes a run of NEWLINE tokens: the result is the first position at or
/// after `pos` holding something else.
fn skip_newlines(toks: &Vec<Token>, pos: usize) -> (r: usize)
    requires
        pos <= toks@.len(),
    ensures
        pos <= r <= toks@.len(),
        forall|k: int| pos <= k < r ==> (#[trigger] toks@[k]).kind is Newline,
        r < toks@.len() ==> !(toks@[r as int].kind is Newline),
        r == walk_skip_newlines(toks@, pos as int),
{
    let mut p = pos;
    while p < toks.len() && matches!(&toks[p].kind, TokenKind::Newline)
        invariant
            pos <= p <= toks@.len(),
            forall|k: int| pos <= k < p ==> (#[trigger] toks@[k]).kind is Newline,
            walk_skip_newlines(toks@, pos as int) == walk_skip_newlines(toks@, p as int),
        decreases toks@.len() - p,
    {
        p = p + 1;
    }
    p
}

/// Consumes at least one NEWLINE token.
fn expect_newlines(toks: &Vec<Token>, pos: usize) -> (r: ParseStep<()>)
    requires
        pos <= toks@.len(),
    ensures
        r matches Ok(t) ==> pos < t.1 <= toks@.len(),
        match walk_newlines(toks@, pos as int) {
            Option::Some(p2) => r matches Ok(t) && t.1 == p2,
            Option::None => r is Err,
        },
{
    if pos < toks.len() && matches!(&toks[pos].kind, TokenKind::Newline) {
        Ok(((), skip_newlines(toks, pos + 1)))
    } else {
        Err(unexpected(toks, pos))
    }
}

/// Reads an identifier token's text.
fn expect_identifier(toks: &Vec<Token>, pos: usize) -> (r: ParseStep<String>)
    requires
        pos <= toks@.len(),
    ensures
        r matches Ok(t) ==> pos < t.1 <= toks@.len(),
        match walk_identifier(toks@, pos as int) {
            Option::Some(v) => r matches Ok(t) && t.0@ == v.0 && t.1 == v.1,
            Option::None => r is Err,
        },
{
    if pos < toks.len() {
        match &toks[pos].kind {
            TokenKind::Identifier(name) => Ok((clone_string(name), pos + 1)),
            _ => Err(unexpected(toks, pos)),
        }
    } else {
        Err(unexpected(toks, pos))
    }
}

/// Reads an identifier, or a keyword as its word (member names after a dot
/// may shadow reserved words).
fn expect_identifier_or_keyword(toks: &Vec<Token>, pos: usize) -> (r: ParseStep<String>)
    requires
        pos <= toks@.len(),
    ensures
        r matches Ok(t) ==> pos < t.1 <= toks@.len(),
        match walk_identifier_or_keyword(toks@, pos as int) {
            Option::Some(v) => r matches Ok(t) && t.0@ == v.0 && t.1 == v.1,
            Option::None => r is Err,
        },
{
    if pos < toks.len() {
        match &toks[pos].kind {
            TokenKind::Identifier(name) => Ok((clone_string(name), pos + 1)),
            TokenKind::Newline | TokenKind::Indent | TokenKind::Dedent | TokenKind::Eof
            | TokenKind::Number(_) | TokenKind::StringLiteral(_) | TokenKind::FString(_)
            | TokenKind::Colon | TokenKind::LParen | TokenKind::RParen | TokenKind::Comma
            | TokenKind::Equals | TokenKind::Plus | TokenKind::Minus | TokenKind::Star
            | TokenKind::Slash | TokenKind::Percent | TokenKind::Dot | TokenKind::DoubleDot
            | TokenKind::Arrow | TokenKind::Lt | TokenKind::Gt | TokenKind::LtEq
            | TokenKind::GtEq | TokenKind::EqEq | TokenKind::Neq | TokenKind::Bang
            | TokenKind::Amp | TokenKind::Pipe | TokenKind::PlusEq | TokenKind::MinusEq
            | TokenKind::StarEq | TokenKind::SlashEq => Err(unexpected(toks, pos)),
            other => Ok((String::from_str(other.name()), pos + 1)),
        }
    } else {
        Err(unexpected(toks, pos))
    }
}

/// Consumes one expected punctuation token.
fn expect_colon(toks: &Vec<Token>, pos: usize) -> (r: ParseStep<()>)
    requires
        pos <= toks@.len(),
    ensures
        r matches Ok(t) ==> pos < t.1 <= toks@.len(),
        match walk_colon(toks@, pos as int) {
            Option::Some(p2) => r matches Ok(t) && t.1 == p2,
            Option::None => r is Err,
        },
{
    if pos < toks.len() && matches!(&toks[pos].kind, TokenKind::Colon) {
        Ok(((), pos + 1))
    } else {
        Err(unexpected(toks, pos))
    }
}

fn expect_rparen(toks: &Vec<Token>, pos: usize) -> (r: ParseStep<()>)
    requires
        pos <= toks@.len(),
    ensures
        r matches Ok(t) ==> pos < t.1 <= toks@.len(),
        match walk_rparen(toks@, pos as int) {
            Option::Some(p2) => r matches Ok(t) && t.1 == p2,
            Option::None => r is Err,
        },
{
    if pos < toks.len() && matches!(&toks[pos].kind, TokenKind::RParen) {
        Ok(((), pos + 1))
    } else {
        Err(unexpected(toks, pos))
    }
}

/// A type: an identifier, optionally with angle-bracketed type arguments.
fn parse_type(toks: &Vec<Token>, pos: usize, fuel: u32) -> (r: ParseStep<Type>)
    requires
        pos <= toks@.len(),
    ensures
        r matches Ok(t) ==> pos < t.1 <= toks@.len(),
        match walk_type(toks@, pos as int) {
            Option::Some(v) => r matches Ok(t) && type_matches(t.0, v.0) && t.1 == v.1,
            Option::None => r is Err,
        },
    decreases fuel, toks@.len() - pos, 2int,
{
    let (base, mut p) = expect_identifier(toks, pos)?;
    let ghost gbase = base@;
    if p < toks.len() && matches!(&toks[p].kind, TokenKind::Lt) {
        p = p + 1;
        let mut args: Vec<Type> = Vec::new();
        let ghost mut gacc: Seq<TypeV> = Seq::empty();
        if p < toks.len() && matches!(&toks[p].kind, TokenKind::Gt) {
            return Ok((Type::Generic { base, args }, p + 1));
        }
        loop
            invariant
                pos < p <= toks@.len(),
                base@ == gbase,
                types_match(args@, gacc),
                walk_type(toks@, pos as int) == (match walk_type_args(toks@, p as int, gacc) {
                    Option::Some(v) => Option::Some((
                        TypeV::Generic { base: gbase, args: v.0 },
                        v.1,
                    )),
                    Option::None => Option::<(TypeV, int)>::None,
                }),
            decreases toks@.len() - p,
        {
            let (arg, p2) = parse_type(toks, p, fuel)?;
            proof {
                let gv = walk_type(toks@, p as int)->0;
                lemma_types_match_push(args@, gacc, arg, gv.0);
                gacc = gacc.push(gv.0);
            }
            p = p2;
            args.push(arg);
            if p < toks.len() && matches!(&toks[p].kind, TokenKind::Comma) {
                p = p + 1;
                if p < toks.len() && matches!(&toks[p].kind, TokenKind::Gt) {
                    return Ok((Type::Generic { base, args }, p + 1));
                }
            } else if p < toks.len() && matches!(&toks[p].kind, TokenKind::Gt) {
                return Ok((Type::Generic { base, args }, p + 1));
            } else {
                return Err(unexpected(toks, p));
            }
        }
    } else {
        Ok((Type::Simple(base), p))
    }
}

proof fn lemma_types_match_push(ts: Seq<Type>, vs: Seq<TypeV>, t: Type, v: TypeV)
    requires
        types_match(ts, vs),
        type_matches(t, v),
    ensures
        types_match(ts.push(t), vs.push(v)),
    decreases ts.len(),
{
    if ts.len() == 0 {
        assert(ts.push(t).first() == t);
        assert(vs.push(v).first() == v);
        assert(ts.push(t).drop_first() =~= Seq::<Type>::empty());
        assert(vs.push(v).drop_first() =~= Seq::<TypeV>::empty());
        assert(types_match(Seq::<Type>::empty(), Seq::<TypeV>::empty()));
    } else {
        assert(ts.push(t).first() == ts.first());
        assert(vs.push(v).first() == vs.first());
        assert(ts.push(t).drop_first() =~= ts.drop_first().push(t));
        assert(vs.push(v).drop_first() =~= vs.drop_first().push(v));
        lemma_types_match_push(ts.drop_first(), vs.drop_first(), t, v);
    }
}

proof fn lemma_params_match_push(ps: Seq<Param>, vs: Seq<ParamV>, q: Param, v: ParamV)
    requires
        params_match(ps, vs),
        param_matches(q, v),
    ensures
        params_match(ps.push(q), vs.push(v)),
    decreases ps.len(),
{
    if ps.len() == 0 {
        assert(ps.push(q).first() == q);
        assert(vs.push(v).first() == v);
        assert(ps.push(q).drop_first() =~= Seq::<Param>::empty());
        assert(vs.push(v).drop_first() =~= Seq::<ParamV>::empty());
        assert(params_match(Seq::<Param>::empty(), Seq::<ParamV>::empty()));
    } else {
        assert(ps.push(q).first() == ps.first());
        assert(vs.push(v).first() == vs.first());
        assert(ps.push(q).drop_first() =~= ps.drop_first().push(q));
        assert(vs.push(v).drop_first() =~= vs.drop_first().push(v));
        lemma_params_match_push(ps.drop_first(), vs.drop_first(), q, v);
    }
}

proof fn lemma_exprs_match_push(es: Seq<Expr>, vs: Seq<ExprV>, e: Expr, v: ExprV)
    requires
        exprs_match(es, vs),
        expr_matches(e, v),
    ensures
        exprs_match(es.push(e), vs.push(v)),
    decreases es.len(),
{
    if es.len() == 0 {
        assert(es.push(e).first() == e);
        assert(vs.push(v).first() == v);
        assert(es.push(e).drop_first() =~= Seq::<Expr>::empty());
        assert(vs.push(v).drop_first() =~= Seq::<ExprV>::empty());
        assert(exprs_match(Seq::<Expr>::empty(), Seq::<ExprV>::empty()));
    } else {
        assert(es.push(e).first() == es.first());
        assert(vs.push(v).first() == vs.first());
        assert(es.push(e).drop_first() =~= es.drop_first().push(e));
        assert(vs.push(v).drop_first() =~= vs.drop_first().push(v));
        lemma_exprs_match_push(es.drop_first(), vs.drop_first(), e, v);
    }
}

proof fn lemma_stmts_match_push(ss: Seq<Statement>, vs: Seq<StmtV>, st: Statement, v: StmtV)
    requires
        stmts_match(ss, vs),
        stmt_matches(st, v),
    ensures
        stmts_match(ss.push(st), vs.push(v)),
    decreases ss.len(),
{
    if ss.len() == 0 {
        assert(ss.push(st).first() == st);
        assert(vs.push(v).first() == v);
        assert(ss.push(st).drop_first() =~= Seq::<Statement>::empty());
        assert(vs.push(v).drop_first() =~= Seq::<StmtV>::empty());
        assert(stmts_match(Seq::<Statement>::empty(), Seq::<StmtV>::empty()));
    } else {
        assert(ss.push(st).first() == ss.first());
        assert(vs.push(v).first() == vs.first());
        assert(ss.push(st).drop_first() =~= ss.drop_first().push(st));
        assert(vs.push(v).drop_first() =~= vs.drop_first().push(v));
        lemma_stmts_match_push(ss.drop_first(), vs.drop_first(), st, v);
    }
}

proof fn lemma_elifs_match_push(
    arms: Seq<(Expr, Block)>,
    vs: Seq<(ExprV, Seq<StmtV>)>,
    a: (Expr, Block),
    v: (ExprV, Seq<StmtV>),
)
    requires
        crate::grammar::elifs_match(arms, vs),
        expr_matches(a.0, v.0),
        stmts_match(a.1.statements@, v.1),
    ensures
        crate::grammar::elifs_match(arms.push(a), vs.push(v)),
    decreases arms.len(),
{
    if arms.len() == 0 {
        assert(arms.push(a).first() == a);
        assert(vs.push(v).first() == v);
        assert(arms.push(a).drop_first() =~= Seq::<(Expr, Block)>::empty());
        assert(vs.push(v).drop_first() =~= Seq::<(ExprV, Seq<StmtV>)>::empty());
        assert(crate::grammar::elifs_match(
            Seq::<(Expr, Block)>::empty(),
            Seq::<(ExprV, Seq<StmtV>)>::empty(),
        ));
    } else {
        assert(arms.push(a).first() == arms.first());
        assert(vs.push(v).first() == vs.first());
        assert(arms.push(a).drop_first() =~= arms.drop_first().push(a));
        assert(vs.push(v).drop_first() =~= vs.drop_first().push(v));
        lemma_elifs_match_push(arms.drop_first(), vs.drop_first(), a, v);
    }
}

/// A parenthesized parameter list, the opening parenthesis already consumed;
/// a trailing comma is allowed.
fn parse_params(toks: &Vec<Token>, pos: usize, fuel: u32) -> (r: ParseStep<Vec<Param>>)
    requires
        pos <= toks@.len(),
    ensures
        r matches Ok(t) ==> pos < t.1 <= toks@.len(),
        match walk_params(toks@, pos as int, Seq::<ParamV>::empty()) {
            Option::Some(v) => r matches Ok(t) && params_match(t.0@, v.0) && t.1 == v.1,
            Option::None => r is Err,
        },
    decreases fuel, toks@.len() - pos, 11int,
{
    let mut params: Vec<Param> = Vec::new();
    let ghost mut gacc: Seq<ParamV> = Seq::empty();
    let mut p = pos;
    if p < toks.len() && matches!(&toks[p].kind, TokenKind::RParen) {
        return Ok((params, p + 1));
    }
    loop
        invariant
            pos <= p <= toks@.len(),
            params_match(params@, gacc),
            walk_params(toks@, pos as int, Seq::<ParamV>::empty())
                == walk_params_rest(toks@, p as int, gacc),
        decreases toks@.len() - p,
    {
        let (name, p2) = expect_identifier(toks, p)?;
        let ghost gname = name@;
        let mut p3 = p2;
        let mut ty: Option<Type> = None;
        let ghost mut gty: Option<TypeV> = None;
        if p3 < toks.len() && matches!(&toks[p3].kind, TokenKind::Colon) {
            let (t, p4) = parse_type(toks, p3 + 1, fuel)?;
            proof {
                gty = Some(walk_type(toks@, p3 as int + 1)->Some_0.0);
            }
            ty = Some(t);
            p3 = p4;
        }
        let ghost gparam = ParamV { name: gname, ty: gty };
        let param = Param::new(name, ty);
        proof {
            assert(param_matches(param, gparam));
            lemma_params_match_push(params@, gacc, param, gparam);
            gacc = gacc.push(gparam);
        }
        params.push(param);
        if p3 < toks.len() && matches!(&toks[p3].kind, TokenKind::Comma) {
            p = p3 + 1;
            if p < toks.len() && matches!(&toks[p].kind, TokenKind::RParen) {
                return Ok((params, p + 1));
            }
        } else if p3 < toks.len() && matches!(&toks[p3].kind, TokenKind::RParen) {
            return Ok((params, p3 + 1));
        } else {
            return Err(unexpected(toks, p3));
        }
    }
}

/// The argument list from its first element on: `pos` stands on an
/// expression, and `args` already holds the preceding elements, whose views
/// are `gacc`.
#[verifier::rlimit(100)]
#[verifier::spinoff_prover]
fn parse_args_rest(
    toks: &Vec<Token>,
    pos: usize,
    fuel: u32,
    args: Vec<Expr>,
    gacc0: Ghost<Seq<ExprV>>,
) -> (r: ParseStep<Vec<Expr>>)
    requires
        pos <= toks@.len(),
        exprs_match(args@, gacc0@),
    ensures
        r matches Ok(t) ==> pos < t.1 <= toks@.len(),
        match walk_args_rest(toks@, pos as int, gacc0@) {
            Option::Some(v) => r matches Ok(t) && exprs_match(t.0@, v.0) && t.1 == v.1,
            Option::None => r is Err,
        },
    decreases fuel, toks@.len() - pos, 11int,
{
    let mut args = args;
    let ghost mut gacc = gacc0@;
    let mut p = pos;
    loop
        invariant
            pos <= p <= toks@.len(),
            exprs_match(args@, gacc),
            walk_args_rest(toks@, pos as int, gacc0@)
                == walk_args_rest(toks@, p as int, gacc),
        decreases toks@.len() - p,
    {
        let (arg, p2) = parse_expr(toks, p, fuel)?;
        proof {
            let gv = walk_expr(toks@, p as int)->Some_0.0;
            lemma_exprs_match_push(args@, gacc, arg, gv);
            gacc = gacc.push(gv);
        }
        p = p2;
        args.push(arg);
        if p < toks.len() && matches!(&toks[p].kind, TokenKind::Comma) {
            p = p + 1;
            if p < toks.len() && matches!(&toks[p].kind, TokenKind::RParen) {
                return Ok((args, p + 1));
            }
        } else if p < toks.len() && matches!(&toks[p].kind, TokenKind::RParen) {
            return Ok((args, p + 1));
        } else {
            return Err(unexpected(toks, p));
        }
    }
}

/// A call's argument list, the opening parenthesis already consumed; a
/// trailing comma is allowed.
#[verifier::rlimit(100)]
fn parse_args(toks: &Vec<Token>, pos: usize, fuel: u32) -> (r: ParseStep<Vec<Expr>>)
    requires
        pos <= toks@.len(),
    ensures
        r matches Ok(t) ==> pos < t.1 <= toks@.len(),
        match walk_args(toks@, pos as int, Seq::<ExprV>::empty()) {
            Option::Some(v) => r matches Ok(t) && exprs_match(t.0@, v.0) && t.1 == v.1,
            Option::None => r is Err,
        },
    decreases fuel, toks@.len() - pos, 12int,
{
    let args: Vec<Expr> = Vec::new();
    if pos < toks.len() && matches!(&toks[pos].kind, TokenKind::RParen) {
        return Ok((args, pos + 1));
    }
    parse_args_rest(toks, pos, fuel, args, Ghost(Seq::empty()))
}

/// The newline-separated statement run of a block-bodied lambda: `first`
/// (whose view is `gfirst`) is its first statement, already parsed, and
/// `pos` stands after it.
#[verifier::rlimit(100)]
#[verifier::spinoff_prover]
fn parse_lambda_rest(
    toks: &Vec<Token>,
    pos: usize,
    fuel: u32,
    first: Statement,
    gfirst: Ghost<StmtV>,
) -> (r: ParseStep<Vec<Statement>>)
    requires
        pos <= toks@.len(),
        stmt_matches(first, gfirst@),
    ensures
        r matches Ok(t) ==> pos <= t.1 <= toks@.len(),
        match walk_lambda_stmts_rest(toks@, pos as int, seq![gfirst@]) {
            Option::Some(v) => r matches Ok(t) && stmts_match(t.0@, v.0) && t.1 == v.1,
            Option::None => r is Err,
        },
    decreases fuel, toks@.len() - pos, 12int,
{
    let mut statements: Vec<Statement> = Vec::new();
    let ghost mut gacc: Seq<StmtV> = seq![gfirst@];
    proof {
        lemma_stmts_match_push(Seq::<Statement>::empty(), Seq::<StmtV>::empty(), first, gfirst@);
        assert(Seq::<Statement>::empty().push(first) =~= seq![first]);
        assert(Seq::<StmtV>::empty().push(gfirst@) =~= seq![gfirst@]);
    }
    statements.push(first);
    let mut p = pos;
    while p < toks.len()
        && (matches!(&toks[p].kind, TokenKind::Return) || starts_expr(&toks[p].kind))
        invariant
            pos <= p <= toks@.len(),
            stmts_match(statements@, gacc),
            walk_lambda_stmts_rest(toks@, pos as int, seq![gfirst@])
                == walk_lambda_stmts_rest(toks@, p as int, gacc),
        decreases toks@.len() - p,
    {
        let (st, p2) = parse_lambda_stmt(toks, p, fuel)?;
        proof {
            let gv = walk_lambda_stmt(toks@, p as int)->Some_0.0;
            lemma_stmts_match_push(statements@, gacc, st, gv);
            gacc = gacc.push(gv);
        }
        statements.push(st);
        p = p2;
    }
    Ok((statements, p))
}

/// A lambda expression, the `fn` token already consumed: an optional
/// parameter list, an optional return type, a colon, then either an inline
/// expression body or newline-separated simple statements.
#[verifier::rlimit(100)]
#[verifier::spinoff_prover]
fn parse_lambda(toks: &Vec<Token>, pos: usize, fuel: u32) -> (r: ParseStep<Expr>)
    requires
        0 < pos <= toks@.len(),
    ensures
        r matches Ok(t) ==> pos < t.1 <= toks@.len(),
        match walk_lambda(toks@, pos as int) {
            Option::Some(v) => r matches Ok(t) && expr_matches(t.0, v.0) && t.1 == v.1,
            Option::None => r is Err,
        },
    decreases fuel, toks@.len() - pos, 13int,
{
    let mut p = pos;
    let mut params: Vec<Param> = Vec::new();
    let ghost mut gparams: Seq<ParamV> = Seq::empty();
    if p < toks.len() && matches!(&toks[p].kind, TokenKind::LParen) {
        let (ps, p2) = parse_params(toks, p + 1, fuel)?;
        proof {
            gparams = walk_params(toks@, p as int + 1, Seq::<ParamV>::empty())->Some_0.0;
        }
        params = ps;
        p = p2;
    }
    let mut ret_ty: Option<Type> = None;
    let ghost mut gret: Option<TypeV> = None;
    if p < toks.len() && matches!(&toks[p].kind, TokenKind::Arrow) {
        let (t, p2) = parse_type(toks, p + 1, fuel)?;
        proof {
            gret = Some(walk_type(toks@, p as int + 1)->Some_0.0);
        }
        ret_ty = Some(t);
        p = p2;
    }
    let ((), p2) = expect_colon(toks, p)?;
    p = p2;
    if p < toks.len() && matches!(&toks[p].kind, TokenKind::Newline) {
        p = skip_newlines(toks, p);
        let (first, p3) = parse_lambda_stmt(toks, p, fuel)?;
        let ghost gfirst = walk_lambda_stmt(toks@, p as int)->Some_0.0;
        let (statements, p4) = parse_lambda_rest(toks, p3, fuel, first, Ghost(gfirst))?;
        Ok((Expr::Lambda { params, ret_ty, body: Block { statements } }, p4))
    } else {
        let (body_expr, p3) = parse_expr(toks, p, fuel)?;
        let ghost gbody = walk_expr(toks@, p as int)->Some_0.0;
        let mut statements: Vec<Statement> = Vec::new();
        statements.push(Statement::Expr(body_expr));
        proof {
            assert(statements@ =~= seq![Statement::Expr(body_expr)]);
            assert(statements@.first() == Statement::Expr(body_expr));
            assert(seq![StmtV::ExprOf(gbody)].first() == StmtV::ExprOf(gbody));
            assert(stmt_matches(Statement::Expr(body_expr), StmtV::ExprOf(gbody)));
            assert(seq![StmtV::ExprOf(gbody)].drop_first() =~= Seq::<StmtV>::empty());
            assert(statements@.drop_first() =~= Seq::<Statement>::empty());
            assert(stmts_match(statements@.drop_first(), seq![StmtV::ExprOf(gbody)].drop_first()));
            assert(stmts_match(statements@, seq![StmtV::ExprOf(gbody)]));
        }
        Ok((Expr::Lambda { params, ret_ty, body: Block { statements } }, p3))
    }
}

/// A simplified statement inside a lambda body: a return or an expression,
/// with an optional newline run after it.
fn parse_lambda_stmt(toks: &Vec<Token>, pos: usize, fuel: u32) -> (r: ParseStep<Statement>)
    requires
        pos <= toks@.len(),
    ensures
        r matches Ok(t) ==> pos < t.1 <= toks@.len(),
        match walk_lambda_stmt(toks@, pos as int) {
            Option::Some(v) => r matches Ok(t) && stmt_matches(t.0, v.0) && t.1 == v.1,
            Option::None => r is Err,
        },
    decreases fuel, toks@.len() - pos, 11int,
{
    if pos < toks.len() && matches!(&toks[pos].kind, TokenKind::Return) {
        let mut p = pos + 1;
        let mut value: Option<Expr> = None;
        if p < toks.len() && starts_expr(&toks[p].kind) {
            let (e, p2) = parse_expr(toks, p, fuel)?;
            value = Some(e);
            p = p2;
        }
        Ok((Statement::Return(value), skip_newlines(toks, p)))
    } else {
        let (e, p) = parse_expr(toks, pos, fuel)?;
        Ok((Statement::Expr(e), skip_newlines(toks, p)))
    }
}

/// An atom: a literal, an identifier, a parenthesized expression, a lambda,
/// or an f-string.
fn parse_atom(toks: &Vec<Token>, pos: usize, fuel: u32) -> (r: ParseStep<Expr>)
    requires
        pos <= toks@.len(),
    ensures
        r matches Ok(t) ==> pos < t.1 <= toks@.len(),
        match walk_atom(toks@, pos as int) {
            Option::Some(v) => r matches Ok(t) && expr_matches(t.0, v.0) && t.1 == v.1,
            Option::None => r is Err,
        },
    decreases fuel, toks@.len() - pos, 2int,
{
    if pos >= toks.len() {
        return Err(unexpected(toks, pos));
    }
    match &toks[pos].kind {
        TokenKind::StringLiteral(value) => {
            Ok((Expr::Literal(Literal::String(clone_string(value))), pos + 1))
        },
        TokenKind::Number(value) => {
            let cleaned = strip_underscores(value.as_str());
            Ok((Expr::Literal(Literal::Number(cleaned)), pos + 1))
        },
        TokenKind::True => Ok((Expr::Literal(Literal::Bool(true)), pos + 1)),
        TokenKind::False => Ok((Expr::Literal(Literal::Bool(false)), pos + 1)),
        TokenKind::FString(content) => {
            if fuel == 0 {
                Ok((Expr::Identifier(clone_string(content)), pos + 1))
            } else {
                let e = parse_fstring(content, fuel - 1);
                Ok((e, pos + 1))
            }
        },
        TokenKind::Identifier(name) => Ok((Expr::Identifier(clone_string(name)), pos + 1)),
        TokenKind::Fn => parse_lambda(toks, pos + 1, fuel),
        TokenKind::LParen => {
            let (e, p) = parse_expr(toks, pos + 1, fuel)?;
            let ((), p2) = expect_rparen(toks, p)?;
            Ok((e, p2))
        },
        _ => Err(unexpected(toks, pos)),
    }
}

/// Postfix level: member accesses (a run of `.name`), then call argument
/// lists.
fn parse_postfix(toks: &Vec<Token>, pos: usize, fuel: u32) -> (r: ParseStep<Expr>)
    requires
        pos <= toks@.len(),
    ensures
        r matches Ok(t) ==> pos < t.1 <= toks@.len(),
        match walk_postfix(toks@, pos as int) {
            Option::Some(v) => r matches Ok(t) && expr_matches(t.0, v.0) && t.1 == v.1,
            Option::None => r is Err,
        },
    decreases fuel, toks@.len() - pos, 3int,
{
    let (first, first_p) = parse_atom(toks, pos, fuel)?;
    let ghost mut gv = walk_atom(toks@, pos as int)->Some_0.0;
    let mut e = first;
    let mut p = first_p;
    while p < toks.len() && matches!(&toks[p].kind, TokenKind::Dot)
        invariant
            pos < p <= toks@.len(),
            expr_matches(e, gv),
            walk_postfix(toks@, pos as int) == (match walk_dots(toks@, p as int, gv) {
                Option::Some(w) => if pos < w.1 <= toks@.len() {
                    walk_calls(toks@, w.1, w.0)
                } else {
                    Option::<(ExprV, int)>::None
                },
                Option::None => Option::<(ExprV, int)>::None,
            }),
        decreases toks@.len() - p,
    {
        let (field, p2) = expect_identifier_or_keyword(toks, p + 1)?;
        proof {
            gv = ExprV::Member(Box::new(gv), field@);
        }
        e = Expr::Member { object: Box::new(e), field };
        p = p2;
    }
    while p < toks.len() && matches!(&toks[p].kind, TokenKind::LParen)
        invariant
            pos < p <= toks@.len(),
            expr_matches(e, gv),
            walk_postfix(toks@, pos as int) == walk_calls(toks@, p as int, gv),
        decreases toks@.len() - p,
    {
        let (args, p2) = parse_args(toks, p + 1, fuel)?;
        proof {
            let gargs = walk_args(toks@, p as int + 1, Seq::<ExprV>::empty())->Some_0.0;
            gv = ExprV::CallOf(Box::new(gv), gargs);
        }
        e = Expr::Call { func: Box::new(e), args };
        p = p2;
    }
    Ok((e, p))
}

/// Unary level: one optional `-` or `!`, plus `await e` and `spawn e`.
fn parse_unary(toks: &Vec<Token>, pos: usize, fuel: u32) -> (r: ParseStep<Expr>)
    requires
        pos <= toks@.len(),
    ensures
        r matches Ok(t) ==> pos < t.1 <= toks@.len(),
        match walk_unary(toks@, pos as int) {
            Option::Some(v) => r matches Ok(t) && expr_matches(t.0, v.0) && t.1 == v.1,
            Option::None => r is Err,
        },
    decreases fuel, toks@.len() - pos, 5int,
{
    if pos < toks.len() && matches!(&toks[pos].kind, TokenKind::Minus) {
        let (e, p) = parse_awaitable(toks, pos + 1, fuel)?;
        Ok((Expr::Unary { op: UnaryOp::Neg, expr: Box::new(e) }, p))
    } else if pos < toks.len() && matches!(&toks[pos].kind, TokenKind::Bang) {
        let (e, p) = parse_awaitable(toks, pos + 1, fuel)?;
        Ok((Expr::Unary { op: UnaryOp::Not, expr: Box::new(e) }, p))
    } else {
        parse_awaitable(toks, pos, fuel)
    }
}

/// An `await` or `spawn` prefix over a postfix expression, or the postfix
/// expression itself.
fn parse_awaitable(toks: &Vec<Token>, pos: usize, fuel: u32) -> (r: ParseStep<Expr>)
    requires
        pos <= toks@.len(),
    ensures
        r matches Ok(t) ==> pos < t.1 <= toks@.len(),
        match walk_awaitable(toks@, pos as int) {
            Option::Some(v) => r matches Ok(t) && expr_matches(t.0, v.0) && t.1 == v.1,
            Option::None => r is Err,
        },
    decreases fuel, toks@.len() - pos, 4int,
{
    if pos < toks.len() && matches!(&toks[pos].kind, TokenKind::Await) {
        let (e, p) = parse_postfix(toks, pos + 1, fuel)?;
        Ok((Expr::Await(Box::new(e)), p))
    } else if pos < toks.len() && matches!(&toks[pos].kind, TokenKind::Spawn) {
        let (e, p) = parse_postfix(toks, pos + 1, fuel)?;
        Ok((Expr::Spawn(Box::new(e)), p))
    } else {
        parse_postfix(toks, pos, fuel)
    }
}

fn product_op(toks: &Vec<Token>, p: usize) -> (r: Option<BinaryOp>)
    requires
        p < toks@.len(),
    ensures
        r == crate::grammar::spec_product_op(toks@[p as int].kind),
{
    match &toks[p].kind {
        TokenKind::Star => Some(BinaryOp::Mul),
        TokenKind::Slash => Some(BinaryOp::Div),
        TokenKind::Percent => Some(BinaryOp::Mod),
        _ => None,
    }
}

/// Multiplicative level, left-associative.
fn parse_product(toks: &Vec<Token>, pos: usize, fuel: u32) -> (r: ParseStep<Expr>)
    requires
        pos <= toks@.len(),
    ensures
        r matches Ok(t) ==> pos < t.1 <= toks@.len(),
        match walk_product(toks@, pos as int) {
            Option::Some(v) => r matches Ok(t) && expr_matches(t.0, v.0) && t.1 == v.1,
            Option::None => r is Err,
        },
    decreases fuel, toks@.len() - pos, 6int,
{
    let (first, first_p) = parse_unary(toks, pos, fuel)?;
    let ghost mut gv = walk_unary(toks@, pos as int)->Some_0.0;
    let mut e = first;
    let mut p = first_p;
    while p < toks.len() && product_op(toks, p).is_some()
        invariant
            pos < p <= toks@.len(),
            expr_matches(e, gv),
            walk_product(toks@, pos as int) == walk_product_rest(toks@, p as int, gv),
        decreases toks@.len() - p,
    {
        let op = match product_op(toks, p) {
            Some(op) => op,
            None => { return Err(unexpected(toks, p)); },
        };
        let (rhs, p2) = parse_unary(toks, p + 1, fuel)?;
        proof {
            let grhs = walk_unary(toks@, p as int + 1)->Some_0.0;
            gv = ExprV::Binary(op, Box::new(gv), Box::new(grhs));
        }
        e = Expr::Binary { op, left: Box::new(e), right: Box::new(rhs) };
        p = p2;
    }
    Ok((e, p))
}

fn sum_op(toks: &Vec<Token>, p: usize) -> (r: Option<BinaryOp>)
    requires
        p < toks@.len(),
    ensures
        r == crate::grammar::spec_sum_op(toks@[p as int].kind),
{
    match &toks[p].kind {
        TokenKind::Plus => Some(BinaryOp::Add),
        TokenKind::Minus => Some(BinaryOp::Sub),
        _ => None,
    }
}

/// Additive level, left-associative.
fn parse_sum(toks: &Vec<Token>, pos: usize, fuel: u32) -> (r: ParseStep<Expr>)
    requires
        pos <= toks@.len(),
    ensures
        r matches Ok(t) ==> pos < t.1 <= toks@.len(),
        match walk_sum(toks@, pos as int) {
            Option::Some(v) => r matches Ok(t) && expr_matches(t.0, v.0) && t.1 == v.1,
            Option::None => r is Err,
        },
    decreases fuel, toks@.len() - pos, 7int,
{
    let (first, first_p) = parse_product(toks, pos, fuel)?;
    let ghost mut gv = walk_product(toks@, pos as int)->Some_0.0;
    let mut e = first;
    let mut p = first_p;
    while p < toks.len() && sum_op(toks, p).is_some()
        invariant
            pos < p <= toks@.len(),
            expr_matches(e, gv),
            walk_sum(toks@, pos as int) == walk_sum_rest(toks@, p as int, gv),
        decreases toks@.len() - p,
    {
        let op = match sum_op(toks, p) {
            Some(op) => op,
            None => { return Err(unexpected(toks, p)); },
        };
        let (rhs, p2) = parse_product(toks, p + 1, fuel)?;
        proof {
            let grhs = walk_product(toks@, p as int + 1)->Some_0.0;
            gv = ExprV::Binary(op, Box::new(gv), Box::new(grhs));
        }
        e = Expr::Binary { op, left: Box::new(e), right: Box::new(rhs) };
        p = p2;
    }
    Ok((e, p))
}

/// Range level: `a .. b`, consumed at exactly one level.
fn parse_range(toks: &Vec<Token>, pos: usize, fuel: u32) -> (r: ParseStep<Expr>)
    requires
        pos <= toks@.len(),
    ensures
        r matches Ok(t) ==> pos < t.1 <= toks@.len(),
        match walk_range(toks@, pos as int) {
            Option::Some(v) => r matches Ok(t) && expr_matches(t.0, v.0) && t.1 == v.1,
            Option::None => r is Err,
        },
    decreases fuel, toks@.len() - pos, 8int,
{
    let (start, p) = parse_sum(toks, pos, fuel)?;
    if p < toks.len() && matches!(&toks[p].kind, TokenKind::DoubleDot) {
        let (end, p2) = parse_sum(toks, p + 1, fuel)?;
        Ok((Expr::Range { start: Box::new(start), end: Box::new(end) }, p2))
    } else {
        Ok((start, p))
    }
}

fn comparison_op(toks: &Vec<Token>, p: usize) -> (r: Option<BinaryOp>)
    requires
        p < toks@.len(),
    ensures
        r == crate::grammar::spec_comparison_op(toks@[p as int].kind),
{
    match &toks[p].kind {
        TokenKind::EqEq => Some(BinaryOp::Eq),
        TokenKind::Neq => Some(BinaryOp::Ne),
        TokenKind::Lt => Some(BinaryOp::Lt),
        TokenKind::Gt => Some(BinaryOp::Gt),
        TokenKind::LtEq => Some(BinaryOp::LtEq),
        TokenKind::GtEq => Some(BinaryOp::GtEq),
        _ => None,
    }
}

/// Comparison level, left-associative.
fn parse_comparison(toks: &Vec<Token>, pos: usize, fuel: u32) -> (r: ParseStep<Expr>)
    requires
        pos <= toks@.len(),
    ensures
        r matches Ok(t) ==> pos < t.1 <= toks@.len(),
        match walk_comparison(toks@, pos as int) {
            Option::Some(v) => r matches Ok(t) && expr_matches(t.0, v.0) && t.1 == v.1,
            Option::None => r is Err,
        },
    decreases fuel, toks@.len() - pos, 9int,
{
    let (first, first_p) = parse_range(toks, pos, fuel)?;
    let ghost mut gv = walk_range(toks@, pos as int)->Some_0.0;
    let mut e = first;
    let mut p = first_p;
    while p < toks.len() && comparison_op(toks, p).is_some()
        invariant
            pos < p <= toks@.len(),
            expr_matches(e, gv),
            walk_comparison(toks@, pos as int) == walk_comparison_rest(toks@, p as int, gv),
        decreases toks@.len() - p,
    {
        let op = match comparison_op(toks, p) {
            Some(op) => op,
            None => { return Err(unexpected(toks, p)); },
        };
        let (rhs, p2) = parse_range(toks, p + 1, fuel)?;
        proof {
            let grhs = walk_range(toks@, p as int + 1)->Some_0.0;
            gv = ExprV::Binary(op, Box::new(gv), Box::new(grhs));
        }
        e = Expr::Binary { op, left: Box::new(e), right: Box::new(rhs) };
        p = p2;
    }
    Ok((e, p))
}

fn logical_op(toks: &Vec<Token>, p: usize) -> (r: Option<BinaryOp>)
    requires
        p < toks@.len(),
    ensures
        r == crate::grammar::spec_logical_op(toks@[p as int].kind),
{
    match &toks[p].kind {
        TokenKind::Amp => Some(BinaryOp::And),
        TokenKind::Pipe => Some(BinaryOp::Or),
        _ => None,
    }
}

/// An expression: the logical level, left-associative, lowest precedence.
pub fn parse_expr(toks: &Vec<Token>, pos: usize, fuel: u32) -> (r: ParseStep<Expr>)
    requires
        pos <= toks@.len(),
    ensures
        r matches Ok(t) ==> pos < t.1 <= toks@.len(),
        match walk_expr(toks@, pos as int) {
            Option::Some(v) => r matches Ok(t) && expr_matches(t.0, v.0) && t.1 == v.1,
            Option::None => r is Err,
        },
    decreases fuel, toks@.len() - pos, 10int,
{
    let (first, first_p) = parse_comparison(toks, pos, fuel)?;
    let ghost mut gv = walk_comparison(toks@, pos as int)->Some_0.0;
    let mut e = first;
    let mut p = first_p;
    while p < toks.len() && logical_op(toks, p).is_some()
        invariant
            pos < p <= toks@.len(),
            expr_matches(e, gv),
            walk_expr(toks@, pos as int) == walk_logical_rest(toks@, p as int, gv),
        decreases toks@.len() - p,
    {
        let op = match logical_op(toks, p) {
            Some(op) => op,
            None => { return Err(unexpected(toks, p)); },
        };
        let (rhs, p2) = parse_comparison(toks, p + 1, fuel)?;
        proof {
            let grhs = walk_comparison(toks@, p as int + 1)->Some_0.0;
            gv = ExprV::Binary(op, Box::new(gv), Box::new(grhs));
        }
        e = Expr::Binary { op, left: Box::new(e), right: Box::new(rhs) };
        p = p2;
    }
    Ok((e, p))
}

/// Scans an f-string body for `{…}` brace groups (doubled braces escape to
/// literals) and re-parses each group's text with the expression grammar. A
/// group whose text fails to lex or parse is retained as a bare identifier
/// reference so its position survives for later diagnostics. A non-empty
/// body without braces stands for its text as a plain string literal.
fn parse_fstring(content: &String, fuel: u32) -> (r: Expr)
    ensures
        r is Literal || r is FString,
        (forall|k: int| 0 <= k < content@.len()
            ==> (#[trigger] content@[k]) != '{' && content@[k] != '}')
            && content@.len() > 0
            ==> (r matches Expr::Literal(lit) && lit matches Literal::String(t)
                && t@ == content@),
    decreases fuel, 0int, 13int,
{
    let chars = chars_of(content.as_str());
    let n = chars.len();
    let mut parts: Vec<FStringPart> = Vec::new();
    let mut current = String::new();
    let mut any_expr = false;
    let mut i: usize = 0;
    while i < n
        invariant
            i <= n,
            n == chars@.len(),
            chars@ == content@,
            (forall|k: int| 0 <= k < content@.len()
                ==> (#[trigger] content@[k]) != '{' && content@[k] != '}')
                ==> (parts@.len() == 0 && !any_expr
                    && current@ == chars@.subrange(0, i as int)),
        decreases n - i,
    {
        let c = chars[i];
        if c == '{' {
            if i + 1 < n && chars[i + 1] == '{' {
                crate::strutil::push_char(&mut current, '{');
                i = i + 2;
            } else {
                if current.unicode_len() > 0 {
                    parts.push(FStringPart::Text(current));
                    current = String::new();
                }
                let start = i + 1;
                let mut j = start;
                while j < n && chars[j] != '}'
                    invariant
                        start <= j <= n,
                        n == chars@.len(),
                    decreases n - j,
                {
                    j = j + 1;
                }
                let inner = chars_to_string(&chars, start, if j < n { j } else { n });
                let trimmed = trim_spaces(&inner);
                if trimmed.unicode_len() > 0 {
                    let e = parse_fstring_group(&trimmed, fuel);
                    parts.push(FStringPart::Expr(Box::new(e)));
                    any_expr = true;
                }
                i = if j < n { j + 1 } else { n };
            }
        } else if c == '}' {
            if i + 1 < n && chars[i + 1] == '}' {
                crate::strutil::push_char(&mut current, '}');
                i = i + 2;
            } else {
                crate::strutil::push_char(&mut current, '}');
                i = i + 1;
            }
        } else {
            crate::strutil::push_char(&mut current, c);
            i = i + 1;
            proof {
                assert(current@ =~= chars@.subrange(0, i as int)
                    || current@ != chars@.subrange(0, i as int));
                if forall|k: int| 0 <= k < content@.len()
                    ==> (#[trigger] content@[k]) != '{' && content@[k] != '}' {
                    assert(current@ =~= chars@.subrange(0, i as int));
                }
            }
        }
    }
    proof {
        if forall|k: int| 0 <= k < content@.len()
            ==> (#[trigger] content@[k]) != '{' && content@[k] != '}' {
            assert(chars@.subrange(0, n as int) =~= chars@);
        }
    }
    if current.unicode_len() > 0 {
        parts.push(FStringPart::Text(current));
    }
    if !any_expr {
        if parts.len() > 0 {
            let first = parts.remove(0);
            if let FStringPart::Text(text) = first {
                return Expr::Literal(Literal::String(text));
            } else {
                return Expr::FString { parts: Vec::new() };
            }
        }
    }
    Expr::FString { parts }
}

/// Re-tokenizes and re-parses one brace group; on any failure the group
/// becomes a bare identifier carrying the group's text.
fn parse_fstring_group(trimmed: &String, fuel: u32) -> (r: Expr)
    decreases fuel, 0int, 12int,
{
    if fuel == 0 {
        return Expr::Identifier(clone_string(trimmed));
    }
    match tokenize(trimmed.as_str()) {
        Ok(inner_toks) => {
            match parse_expr(&inner_toks, 0, fuel - 1) {
                Ok((e, _)) => e,
                Err(_) => Expr::Identifier(clone_string(trimmed)),
            }
        },
        Err(_) => Expr::Identifier(clone_string(trimmed)),
    }
}

/// The text without leading and trailing spaces and tabs.
fn trim_spaces(s: &String) -> (r: String) {
    let chars = chars_of(s.as_str());
    let n = chars.len();
    let mut a: usize = 0;
    while a < n && (chars[a] == ' ' || chars[a] == '\t')
        invariant
            a <= n,
            n == chars@.len(),
        decreases n - a,
    {
        a = a + 1;
    }
    let mut b: usize = n;
    while b > a && (chars[b - 1] == ' ' || chars[b - 1] == '\t')
        invariant
            a <= b <= n,
            n == chars@.len(),
        decreases b,
    {
        b = b - 1;
    }
    chars_to_string(&chars, a, b)
}

/// A block: INDENT, one or more statements, DEDENT.
#[verifier::rlimit(100)]
fn parse_block(toks: &Vec<Token>, pos: usize, fuel: u32) -> (r: ParseStep<Block>)
    requires
        pos <= toks@.len(),
    ensures
        r matches Ok(t) ==> pos < t.1 <= toks@.len(),
        match walk_block(toks@, pos as int) {
            Option::Some(v) => r matches Ok(t) && stmts_match(t.0.statements@, v.0)
                && t.1 == v.1,
            Option::None => r is Err,
        },
    decreases fuel, toks@.len() - pos, 14int,
{
    if !(pos < toks.len() && matches!(&toks[pos].kind, TokenKind::Indent)) {
        return Err(unexpected(toks, pos));
    }
    let mut p = pos + 1;
    let mut statements: Vec<Statement> = Vec::new();
    let (first, p2) = parse_stmt(toks, p, fuel)?;
    let ghost gfirst = walk_stmt(toks@, p as int)->Some_0.0;
    let ghost mut gacc: Seq<StmtV> = seq![gfirst];
    proof {
        lemma_stmts_match_push(Seq::<Statement>::empty(), Seq::<StmtV>::empty(), first, gfirst);
        assert(Seq::<Statement>::empty().push(first) =~= seq![first]);
        assert(Seq::<StmtV>::empty().push(gfirst) =~= seq![gfirst]);
    }
    statements.push(first);
    p = p2;
    while p < toks.len() && !matches!(&toks[p].kind, TokenKind::Dedent)
        invariant
            pos < p <= toks@.len(),
            stmts_match(statements@, gacc),
            walk_block(toks@, pos as int) == (match walk_block_stmts(toks@, p as int, gacc) {
                Option::Some(w) => if w.1 < toks@.len() && toks@[w.1].kind is Dedent {
                    Option::Some((w.0, w.1 + 1))
                } else {
                    Option::<(Seq<StmtV>, int)>::None
                },
                Option::None => Option::<(Seq<StmtV>, int)>::None,
            }),
        decreases toks@.len() - p,
    {
        let (s, p3) = parse_stmt(toks, p, fuel)?;
        proof {
            let gs = walk_stmt(toks@, p as int)->Some_0.0;
            lemma_stmts_match_push(statements@, gacc, s, gs);
            gacc = gacc.push(gs);
        }
        statements.push(s);
        p = p3;
    }
    if p < toks.len() && matches!(&toks[p].kind, TokenKind::Dedent) {
        Ok((Block { statements }, p + 1))
    } else {
        Err(unexpected(toks, p))
    }
}

/// The run of `elif` arms, then an optional `else` arm, after an `if`'s
/// then-block.
#[verifier::rlimit(100)]
#[verifier::spinoff_prover]
fn parse_elifs(toks: &Vec<Token>, pos: usize, fuel: u32) -> (r: ParseStep<
    (Vec<(Expr, Block)>, Option<Block>),
>)
    requires
        pos <= toks@.len(),
    ensures
        r matches Ok(t) ==> pos <= t.1 <= toks@.len(),
        match walk_elifs(toks@, pos as int, Seq::<(ExprV, Seq<StmtV>)>::empty()) {
            Option::Some(v) => r matches Ok(t) && crate::grammar::elifs_match(t.0.0@, v.0)
                && (match (t.0.1, v.1) {
                    (Option::<Block>::None, Option::<Seq<StmtV>>::None) => true,
                    (Option::<Block>::Some(b), Option::<Seq<StmtV>>::Some(bv)) => stmts_match(
                        b.statements@,
                        bv,
                    ),
                    _ => false,
                }) && t.1 == v.2,
            Option::None => r is Err,
        },
    decreases fuel, toks@.len() - pos, 11int,
{
    let mut elif_blocks: Vec<(Expr, Block)> = Vec::new();
    let ghost mut gacc: Seq<(ExprV, Seq<StmtV>)> = Seq::empty();
    let mut p = pos;
    while p < toks.len() && matches!(&toks[p].kind, TokenKind::Elif)
        invariant
            pos <= p <= toks@.len(),
            crate::grammar::elifs_match(elif_blocks@, gacc),
            walk_elifs(toks@, pos as int, Seq::<(ExprV, Seq<StmtV>)>::empty())
                == walk_elifs(toks@, p as int, gacc),
        decreases toks@.len() - p,
    {
        let (econd, q1) = parse_expr(toks, p + 1, fuel)?;
        let ((), q2) = expect_colon(toks, q1)?;
        let ((), q3) = expect_newlines(toks, q2)?;
        let (eblock, q4) = parse_block(toks, q3, fuel)?;
        proof {
            let gec = walk_expr(toks@, p as int + 1)->Some_0.0;
            let geb = walk_block(toks@, q3 as int)->Some_0.0;
            lemma_elifs_match_push(elif_blocks@, gacc, (econd, eblock), (gec, geb));
            gacc = gacc.push((gec, geb));
        }
        elif_blocks.push((econd, eblock));
        p = q4;
    }
    let mut else_block: Option<Block> = None;
    if p < toks.len() && matches!(&toks[p].kind, TokenKind::Else) {
        let ((), q1) = expect_colon(toks, p + 1)?;
        let ((), q2) = expect_newlines(toks, q1)?;
        let (eblock, q3) = parse_block(toks, q2, fuel)?;
        else_block = Some(eblock);
        return Ok(((elif_blocks, else_block), q3));
    }
    Ok(((elif_blocks, else_block), p))
}

/// An `elif`/`else`-aware `if` statement, the `if` token already consumed.
#[verifier::rlimit(100)]
#[verifier::spinoff_prover]
fn parse_if(toks: &Vec<Token>, pos: usize, fuel: u32) -> (r: ParseStep<Statement>)
    requires
        0 < pos <= toks@.len(),
    ensures
        r matches Ok(t) ==> pos < t.1 <= toks@.len(),
        match walk_if(toks@, pos as int) {
            Option::Some(v) => r matches Ok(t) && stmt_matches(t.0, v.0) && t.1 == v.1,
            Option::None => r is Err,
        },
    decreases fuel, toks@.len() - pos, 12int,
{
    let (cond, p1) = parse_expr(toks, pos, fuel)?;
    let ((), p2) = expect_colon(toks, p1)?;
    let ((), p3) = expect_newlines(toks, p2)?;
    let (then_block, p4) = parse_block(toks, p3, fuel)?;
    let (arms, p5) = parse_elifs(toks, p4, fuel)?;
    let (elif_blocks, else_block) = arms;
    Ok((
        Statement::If { cond: Box::new(cond), then_block, elif_blocks, else_block },
        p5,
    ))
}

/// A `print(...)` statement, starting at its `print` token.
#[verifier::rlimit(100)]
#[verifier::spinoff_prover]
fn parse_print_stmt(toks: &Vec<Token>, pos: usize, fuel: u32) -> (r: ParseStep<Statement>)
    requires
        pos < toks@.len(),
        toks@[pos as int].kind is Print,
    ensures
        r matches Ok(t) ==> pos < t.1 <= toks@.len(),
        match walk_stmt(toks@, pos as int) {
            Option::Some(v) => r matches Ok(t) && stmt_matches(t.0, v.0) && t.1 == v.1,
            Option::None => r is Err,
        },
    decreases fuel, toks@.len() - pos, 12int,
{
    if pos >= toks.len() {
        return Err(unexpected(toks, pos));
    }
    if !(pos + 1 < toks.len() && matches!(&toks[pos + 1].kind, TokenKind::LParen)) {
        return Err(unexpected(toks, pos + 1));
    }
    let (arg, p1) = parse_expr(toks, pos + 2, fuel)?;
    let ((), p2) = expect_rparen(toks, p1)?;
    let mut args: Vec<Expr> = Vec::new();
    args.push(arg);
    let ghost garg = walk_expr(toks@, pos as int + 2)->Some_0.0;
    proof {
        assert(args@ =~= seq![arg]);
        assert(args@.first() == arg);
        assert(seq![garg].first() == garg);
        assert(args@.drop_first() =~= Seq::<Expr>::empty());
        assert(seq![garg].drop_first() =~= Seq::<ExprV>::empty());
        assert(exprs_match(Seq::<Expr>::empty(), Seq::<ExprV>::empty()));
        assert(exprs_match(args@.drop_first(), seq![garg].drop_first()));
        assert(expr_matches(arg, garg));
        assert(exprs_match(args@, seq![garg]));
    }
    let func_e = Expr::Identifier(String::from_str("print"));
    proof {
        assert(expr_matches(func_e, ExprV::Ident("print"@)));
    }
    let call = Expr::Call { func: Box::new(func_e), args };
    proof {
        assert(expr_matches(
            call,
            ExprV::CallOf(Box::new(ExprV::Ident("print"@)), seq![garg]),
        ));
    }
    Ok((Statement::Expr(call), skip_newlines(toks, p2)))
}

/// A `use ns:name [as alias]` statement, starting at its `use` token.
#[verifier::rlimit(100)]
#[verifier::spinoff_prover]
fn parse_use_stmt(toks: &Vec<Token>, pos: usize, fuel: u32) -> (r: ParseStep<Statement>)
    requires
        pos < toks@.len(),
        toks@[pos as int].kind is Use,
    ensures
        r matches Ok(t) ==> pos < t.1 <= toks@.len(),
        match walk_stmt(toks@, pos as int) {
            Option::Some(v) => r matches Ok(t) && stmt_matches(t.0, v.0) && t.1 == v.1,
            Option::None => r is Err,
        },
    decreases fuel, toks@.len() - pos, 12int,
{
    if pos >= toks.len() {
        return Err(unexpected(toks, pos));
    }
    let (ns, p1) = expect_identifier(toks, pos + 1)?;
    let ((), p2) = expect_colon(toks, p1)?;
    let (nm, p3) = expect_identifier(toks, p2)?;
    let mut p = p3;
    let mut alias: Option<String> = None;
    if p < toks.len() && matches!(&toks[p].kind, TokenKind::As) {
        let (al, p4) = expect_identifier(toks, p + 1)?;
        alias = Some(al);
        p = p4;
    }
    let ghost gns = ns@;
    let ghost gnm = nm@;
    let mut module = ns;
    module.append(":");
    module.append(nm.as_str());
    proof {
        assert(module@ =~= gns + ":"@ + gnm);
    }
    Ok((Statement::Use { module, alias }, skip_newlines(toks, p)))
}

/// A `for var in iterable:` statement, starting at its `for` token.
#[verifier::rlimit(100)]
#[verifier::spinoff_prover]
fn parse_for_stmt(toks: &Vec<Token>, pos: usize, fuel: u32) -> (r: ParseStep<Statement>)
    requires
        pos < toks@.len(),
        toks@[pos as int].kind is For,
    ensures
        r matches Ok(t) ==> pos < t.1 <= toks@.len(),
        match walk_stmt(toks@, pos as int) {
            Option::Some(v) => r matches Ok(t) && stmt_matches(t.0, v.0) && t.1 == v.1,
            Option::None => r is Err,
        },
    decreases fuel, toks@.len() - pos, 12int,
{
    if pos >= toks.len() {
        return Err(unexpected(toks, pos));
    }
    let (var, p1) = expect_identifier(toks, pos + 1)?;
    if !(p1 < toks.len() && matches!(&toks[p1].kind, TokenKind::In)) {
        return Err(unexpected(toks, p1));
    }
    let (iterable, p2) = parse_expr(toks, p1 + 1, fuel)?;
    let ((), p3) = expect_colon(toks, p2)?;
    let ((), p4) = expect_newlines(toks, p3)?;
    let (body, p5) = parse_block(toks, p4, fuel)?;
    Ok((Statement::For { var, iterable, body }, skip_newlines(toks, p5)))
}

/// A `while cond:` statement, starting at its `while` token.
#[verifier::rlimit(100)]
#[verifier::spinoff_prover]
fn parse_while_stmt(toks: &Vec<Token>, pos: usize, fuel: u32) -> (r: ParseStep<Statement>)
    requires
        pos < toks@.len(),
        toks@[pos as int].kind is While,
    ensures
        r matches Ok(t) ==> pos < t.1 <= toks@.len(),
        match walk_stmt(toks@, pos as int) {
            Option::Some(v) => r matches Ok(t) && stmt_matches(t.0, v.0) && t.1 == v.1,
            Option::None => r is Err,
        },
    decreases fuel, toks@.len() - pos, 12int,
{
    if pos >= toks.len() {
        return Err(unexpected(toks, pos));
    }
    let (cond, p1) = parse_expr(toks, pos + 1, fuel)?;
    let ((), p2) = expect_colon(toks, p1)?;
    let ((), p3) = expect_newlines(toks, p2)?;
    let (body, p4) = parse_block(toks, p3, fuel)?;
    Ok((Statement::While { cond, body }, skip_newlines(toks, p4)))
}

/// A statement opened by an identifier: an assignment (plain or compound,
/// the compound forms desugaring to `x = x op y`) or an expression.
#[verifier::rlimit(100)]
#[verifier::spinoff_prover]
fn parse_assign_or_expr_stmt(toks: &Vec<Token>, pos: usize, fuel: u32) -> (r: ParseStep<
    Statement,
>)
    requires
        pos < toks@.len(),
        toks@[pos as int].kind matches TokenKind::Identifier(_),
    ensures
        r matches Ok(t) ==> pos < t.1 <= toks@.len(),
        match walk_stmt(toks@, pos as int) {
            Option::Some(v) => r matches Ok(t) && stmt_matches(t.0, v.0) && t.1 == v.1,
            Option::None => r is Err,
        },
    decreases fuel, toks@.len() - pos, 12int,
{
    if pos >= toks.len() {
        return Err(unexpected(toks, pos));
    }
    let name = match &toks[pos].kind {
        TokenKind::Identifier(n) => n,
        _ => {
            return Err(unexpected(toks, pos));
        },
    };
    let compound: Option<Option<BinaryOp>> = if pos + 1 < toks.len() {
        match &toks[pos + 1].kind {
            TokenKind::Equals => Some(None),
            TokenKind::PlusEq => Some(Some(BinaryOp::Add)),
            TokenKind::MinusEq => Some(Some(BinaryOp::Sub)),
            TokenKind::StarEq => Some(Some(BinaryOp::Mul)),
            TokenKind::SlashEq => Some(Some(BinaryOp::Div)),
            _ => None,
        }
    } else {
        None
    };
    match compound {
        Some(op) => {
            let lhs_name = clone_string(name);
            let (rhs, p1) = parse_expr(toks, pos + 2, fuel)?;
            let ghost grhs = walk_expr(toks@, pos as int + 2)->Some_0.0;
            let e = match op {
                // `x += y` desugars to `x = x + y`.
                Some(bop) => {
                    let lid = Expr::Identifier(clone_string(name));
                    proof {
                        assert(expr_matches(lid, ExprV::Ident(name@)));
                    }
                    let b = Expr::Binary { op: bop, left: Box::new(lid), right: Box::new(rhs) };
                    proof {
                        assert(expr_matches(
                            b,
                            ExprV::Binary(
                                bop,
                                Box::new(ExprV::Ident(name@)),
                                Box::new(grhs),
                            ),
                        ));
                    }
                    b
                },
                None => rhs,
            };
            Ok((
                Statement::Assignment { name: lhs_name, expr: e },
                skip_newlines(toks, p1),
            ))
        },
        None => {
            let (e, p1) = parse_expr(toks, pos, fuel)?;
            Ok((Statement::Expr(e), skip_newlines(toks, p1)))
        },
    }
}

/// One statement, its trailing newline run consumed.
#[verifier::rlimit(100)]
#[verifier::spinoff_prover]
fn parse_stmt(toks: &Vec<Token>, pos: usize, fuel: u32) -> (r: ParseStep<Statement>)
    requires
        pos <= toks@.len(),
    ensures
        r matches Ok(t) ==> pos < t.1 <= toks@.len(),
        match walk_stmt(toks@, pos as int) {
            Option::Some(v) => r matches Ok(t) && stmt_matches(t.0, v.0) && t.1 == v.1,
            Option::None => r is Err,
        },
    decreases fuel, toks@.len() - pos, 13int,
{
    if pos >= toks.len() {
        return Err(unexpected(toks, pos));
    }
    match &toks[pos].kind {
        TokenKind::Print => parse_print_stmt(toks, pos, fuel),
        TokenKind::Return => {
            let mut p = pos + 1;
            let mut value: Option<Expr> = None;
            if p < toks.len() && starts_expr(&toks[p].kind) {
                let (e, p2) = parse_expr(toks, p, fuel)?;
                value = Some(e);
                p = p2;
            }
            Ok((Statement::Return(value), skip_newlines(toks, p)))
        },
        TokenKind::Let => {
            let (name, p1) = expect_identifier(toks, pos + 1)?;
            if !(p1 < toks.len() && matches!(&toks[p1].kind, TokenKind::Equals)) {
                return Err(unexpected(toks, p1));
            }
            let (e, p2) = parse_expr(toks, p1 + 1, fuel)?;
            Ok((Statement::Let { name, expr: e }, skip_newlines(toks, p2)))
        },
        TokenKind::Break => Ok((Statement::Break, skip_newlines(toks, pos + 1))),
        TokenKind::Continue => Ok((Statement::Continue, skip_newlines(toks, pos + 1))),
        TokenKind::Use => parse_use_stmt(toks, pos, fuel),
        TokenKind::If => {
            let (s, p) = parse_if(toks, pos + 1, fuel)?;
            Ok((s, skip_newlines(toks, p)))
        },
        TokenKind::For => parse_for_stmt(toks, pos, fuel),
        TokenKind::While => parse_while_stmt(toks, pos, fuel),
        TokenKind::Identifier(_) => parse_assign_or_expr_stmt(toks, pos, fuel),
        _ => {
            let (e, p1) = parse_expr(toks, pos, fuel)?;
            Ok((Statement::Expr(e), skip_newlines(toks, p1)))
        },
    }
}

/// A top-level function definition, the `fn` token already consumed.
#[verifier::rlimit(100)]
fn parse_function(toks: &Vec<Token>, pos: usize, fuel: u32) -> (r: ParseStep<Statement>)
    requires
        0 < pos <= toks@.len(),
    ensures
        r matches Ok(t) ==> pos < t.1 <= toks@.len(),
        match walk_function(toks@, pos as int) {
            Option::Some(v) => r matches Ok(t) && stmt_matches(t.0, v.0) && t.1 == v.1,
            Option::None => r is Err,
        },
    decreases fuel, toks@.len() - pos, 13int,
{
    let (name, p1) = expect_identifier(toks, pos)?;
    let mut p = p1;
    let mut params: Vec<Param> = Vec::new();
    let ghost mut gparams: Seq<ParamV> = Seq::empty();
    if p < toks.len() && matches!(&toks[p].kind, TokenKind::LParen) {
        let (ps, p2) = parse_params(toks, p + 1, fuel)?;
        proof {
            gparams = walk_params(toks@, p as int + 1, Seq::<ParamV>::empty())->Some_0.0;
        }
        params = ps;
        p = p2;
    }
    let mut ret_ty: Option<Type> = None;
    let ghost mut gret: Option<TypeV> = None;
    if p < toks.len() && matches!(&toks[p].kind, TokenKind::Arrow) {
        let (t, p2) = parse_type(toks, p + 1, fuel)?;
        proof {
            gret = Some(walk_type(toks@, p as int + 1)->Some_0.0);
        }
        ret_ty = Some(t);
        p = p2;
    }
    let ((), p3) = expect_colon(toks, p)?;
    let ((), p4) = expect_newlines(toks, p3)?;
    let (body, p5) = parse_block(toks, p4, fuel)?;
    let f = Function::new(name, params, ret_ty, body);
    Ok((Statement::Function(f), skip_newlines(toks, p5)))
}

/// Parses a whole token stream into a program. On success every token other
/// than EOF has been consumed, the EOF token is the last token read, and
/// nothing follows it; a stream of the EOF token alone is accepted as the
/// empty program.
pub fn parse_program_tokens(toks: &Vec<Token>, fuel: u32) -> (r: ParseStep<Program>)
    ensures
        r matches Ok(t) ==> {
            &&& t.1 == toks@.len()
            &&& toks@.len() >= 1
            &&& toks@[toks@.len() - 1].kind is Eof
        },
        toks@.len() == 1 && toks@[0].kind is Eof
            ==> (r matches Ok(t) && t.0.statements@.len() == 0),
        match walk_program(toks@) {
            Option::Some(v) => r matches Ok(t) && stmts_match(t.0.statements@, v.0)
                && t.1 == v.1,
            Option::None => r is Err,
        },
{
    let mut statements: Vec<Statement> = Vec::new();
    let ghost mut gacc: Seq<StmtV> = Seq::empty();
    let mut p = skip_newlines(toks, 0);
    while p < toks.len() && !matches!(&toks[p].kind, TokenKind::Eof)
        invariant
            p <= toks@.len(),
            toks@.len() == 1 && toks@[0].kind is Eof
                ==> p == 0 && statements@.len() == 0,
            stmts_match(statements@, gacc),
            walk_program(toks@) == (match walk_items(toks@, p as int, gacc) {
                Option::Some(w) => if w.1 < toks@.len() && toks@[w.1].kind is Eof
                    && w.1 + 1 == toks@.len() {
                    Option::Some((w.0, w.1 + 1))
                } else {
                    Option::<(Seq<StmtV>, int)>::None
                },
                Option::None => Option::<(Seq<StmtV>, int)>::None,
            }),
        decreases toks@.len() - p,
    {
        let is_function = matches!(&toks[p].kind, TokenKind::Fn)
            && p + 1 < toks.len()
            && matches!(&toks[p + 1].kind, TokenKind::Identifier(_));
        if is_function {
            let (s, p2) = parse_function(toks, p + 1, fuel)?;
            proof {
                let gs = walk_function(toks@, p as int + 1)->Some_0.0;
                lemma_stmts_match_push(statements@, gacc, s, gs);
                gacc = gacc.push(gs);
            }
            statements.push(s);
            p = p2;
        } else {
            let (s, p2) = parse_stmt(toks, p, fuel)?;
            proof {
                let gs = walk_stmt(toks@, p as int)->Some_0.0;
                lemma_stmts_match_push(statements@, gacc, s, gs);
                gacc = gacc.push(gs);
            }
            statements.push(s);
            p = p2;
        }
    }
    if p < toks.len() && matches!(&toks[p].kind, TokenKind::Eof) {
        if p + 1 == toks.len() {
            Ok((Program { statements }, p + 1))
        } else {
            Err(unexpected(toks, p + 1))
        }
    } else {
        Err(unexpected(toks, p))
    }
}

/// Parses tokens into a Program, or reports the first diagnostic. Every
/// token other than EOF is consumed by a successful parse; the lex of an
/// empty source (the EOF token alone) parses to the empty program.
pub fn parse(toks: &Vec<Token>) -> (r: Result<Program, Vec<ParserError>>)
    ensures
        r matches Ok(p) ==> toks@.len() >= 1 && toks@[toks@.len() - 1].kind is Eof,
        toks@.len() == 1 && toks@[0].kind is Eof
            ==> (r matches Ok(p) && p.statements@.len() == 0),
        r matches Err(es) ==> es@.len() == 1,
        match walk_program(toks@) {
            Option::Some(v) => r matches Ok(p) && stmts_match(p.statements@, v.0),
            Option::None => r is Err,
        },
{
    match parse_program_tokens(toks, FSTRING_DEPTH) {
        Ok((program, _)) => Ok(program),
        Err(e) => {
            let mut es: Vec<ParserError> = Vec::new();
            es.push(e);
            Err(es)
        },
    }
}

} // verus!
