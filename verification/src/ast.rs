//! The abstract syntax tree: a program owns its top-level statements, every
//! ownership edge in the tree is unique, and back-references never exist.
//!
//! Numeric literals carry their cleaned decimal text: nothing in the
//! compiler's own logic ever computes with the value itself.

use vstd::prelude::*;

use crate::strutil::sat_add;

verus! {

#[derive(Debug)]
pub enum Type {
    Simple(String),
    Generic { base: String, args: Vec<Type> },
}

#[derive(Debug)]
pub struct Param {
    pub name: String,
    pub ty: Option<Type>,
}

impl Param {
    pub fn new(name: String, ty: Option<Type>) -> (p: Self)
        ensures
            p.name == name,
            p.ty == ty,
    {
        Self { name, ty }
    }
}

#[derive(Debug, Clone, Copy, PartialEq, Eq, Structural)]
pub enum BinaryOp {
    Add,
    Sub,
    Mul,
    Div,
    Mod,
    Eq,
    Ne,
    Lt,
    Gt,
    LtEq,
    GtEq,
    And,
    Or,
}

#[derive(Debug, Clone, Copy, PartialEq, Eq, Structural)]
pub enum UnaryOp {
    Neg,
    Not,
}

/// A literal value. `Number` holds the cleaned decimal text of the literal
/// (underscores stripped); the numeric value is materialized only at
/// code-generation time, and two numeric literals are the same key exactly
/// when their cleaned texts agree.
#[derive(Debug, Clone, PartialEq, Eq)]
pub enum Literal {
    String(String),
    Number(String),
    Bool(bool),
}

#[derive(Debug)]
pub enum Expr {
    Literal(Literal),
    Identifier(String),
    Member { object: Box<Expr>, field: String },
    Call { func: Box<Expr>, args: Vec<Expr> },
    Binary { op: BinaryOp, left: Box<Expr>, right: Box<Expr> },
    Unary { op: UnaryOp, expr: Box<Expr> },
    Range { start: Box<Expr>, end: Box<Expr> },
    FString { parts: Vec<FStringPart> },
    Lambda { params: Vec<Param>, ret_ty: Option<Type>, body: Block },
    Await(Box<Expr>),
    Spawn(Box<Expr>),
}

#[derive(Debug)]
pub enum FStringPart {
    Text(String),
    Expr(Box<Expr>),
}

#[derive(Debug)]
pub struct Block {
    pub statements: Vec<Statement>,
}

#[derive(Debug)]
pub enum Statement {
    Let { name: String, expr: Expr },
    Assignment { name: String, expr: Expr },
    If {
        cond: Box<Expr>,
        then_block: Block,
        elif_blocks: Vec<(Expr, Block)>,
        else_block: Option<Block>,
    },
    For { var: String, iterable: Expr, body: Block },
    While { cond: Expr, body: Block },
    Break,
    Continue,
    Return(Option<Expr>),
    Function(Function),
    Expr(Expr),
    Use { module: String, alias: Option<String> },
    Block(Block),
}

#[derive(Debug)]
pub struct Function {
    pub name: String,
    pub params: Vec<Param>,
    pub ret_ty: Option<Type>,
    pub body: Block,
}

impl Function {
    pub fn new(name: String, params: Vec<Param>, ret_ty: Option<Type>, body: Block) -> (f: Self)
        ensures
            f.name == name,
            f.params == params,
            f.ret_ty == ret_ty,
            f.body == body,
    {
        Self { name, params, ret_ty, body }
    }
}

#[derive(Debug)]
pub struct Program {
    pub statements: Vec<Statement>,
}

impl Program {
    pub fn new(statements: Vec<Statement>) -> (p: Self)
        ensures
            p.statements == statements,
    {
        Self { statements }
    }
}

/// How many statements a statement holds, itself included, counting through
/// nested blocks.
pub open spec fn spec_stmt_count(s: Statement) -> nat
    decreases s,
{
    match s {
        Statement::If { then_block, elif_blocks, else_block, .. } => {
            1 + spec_block_count(then_block) + spec_elif_count(elif_blocks@)
                + match else_block {
                    Some(b) => spec_block_count(b),
                    None => 0nat,
                }
        },
        Statement::For { body, .. } => 1 + spec_block_count(body),
        Statement::While { body, .. } => 1 + spec_block_count(body),
        Statement::Function(f) => 1 + spec_block_count(f.body),
        Statement::Block(b) => spec_block_count(b),
        _ => 1,
    }
}

pub open spec fn spec_block_count(b: Block) -> nat
    decreases b,
{
    spec_stmts_count(b.statements@)
}

pub open spec fn spec_stmts_count(ss: Seq<Statement>) -> nat
    decreases ss,
{
    if ss.len() == 0 {
        0
    } else {
        spec_stmt_count(ss.first()) + spec_stmts_count(ss.drop_first())
    }
}

pub open spec fn spec_elif_count(arms: Seq<(Expr, Block)>) -> nat
    decreases arms,
{
    if arms.len() == 0 {
        0
    } else {
        spec_block_count(arms.first().1) + spec_elif_count(arms.drop_first())
    }
}

/// The count clamped at the largest machine integer.
pub open spec fn clamped(n: int) -> int {
    if n <= usize::MAX { n } else { usize::MAX as int }
}

impl Statement {
    /// Recursively counts statements; the result saturates at the machine
    /// limit.
    pub fn recursive_count(&self) -> (r: usize)
        ensures
            r == clamped(spec_stmt_count(*self) as int),
        decreases *self,
    {
        match self {
            Statement::If { then_block, elif_blocks, else_block, .. } => {
                let mut total = sat_add(1, then_block.recursive_count());
                let n = elif_blocks.len();
                let mut i: usize = 0;
                proof {
                    assert(elif_blocks@.skip(0) =~= elif_blocks@);
                }
                while i < n
                    invariant
                        i <= n,
                        n == elif_blocks@.len(),
                        *self matches Statement::If { elif_blocks: eb, .. } && eb@ == elif_blocks@,
                        total == clamped(
                            1 + spec_block_count(*then_block) + spec_elif_count(elif_blocks@)
                                - spec_elif_count(elif_blocks@.skip(i as int)),
                        ),
                        spec_elif_count(elif_blocks@.skip(i as int)) <= spec_elif_count(elif_blocks@),
                    decreases n - i,
                {
                    proof {
                        assert(elif_blocks@.skip(i as int).first() == elif_blocks@[i as int]);
                        assert(elif_blocks@.skip(i as int).drop_first()
                            =~= elif_blocks@.skip(i as int + 1));
                        lemma_elif_count_skip_le(elif_blocks@, i as int + 1);
                    }
                    let arm = &elif_blocks[i];
                    total = sat_add(total, arm.1.recursive_count());
                    i = i + 1;
                }
                proof {
                    assert(elif_blocks@.skip(n as int).len() == 0);
                }
                if let Some(b) = else_block {
                    total = sat_add(total, b.recursive_count());
                }
                total
            },
            Statement::For { body, .. } => sat_add(1, body.recursive_count()),
            Statement::While { body, .. } => sat_add(1, body.recursive_count()),
            Statement::Function(f) => sat_add(1, f.body.recursive_count()),
            Statement::Block(b) => b.recursive_count(),
            _ => 1,
        }
    }

    /// Whether the statement is free of side effects.
    pub fn is_pure(&self) -> (r: bool)
        ensures
            r == (self is Let || self is Break || self is Continue),
    {
        match self {
            Statement::Let { .. } | Statement::Break | Statement::Continue => true,
            _ => false,
        }
    }
}

proof fn lemma_elif_count_skip_le(arms: Seq<(Expr, Block)>, i: int)
    requires
        0 <= i <= arms.len(),
    ensures
        spec_elif_count(arms.skip(i)) <= spec_elif_count(arms),
    decreases i,
{
    if i > 0 {
        lemma_elif_count_skip_le(arms, i - 1);
        assert(arms.skip(i - 1).drop_first() =~= arms.skip(i));
        if arms.skip(i - 1).len() > 0 {
            assert(spec_elif_count(arms.skip(i - 1))
                == spec_block_count(arms.skip(i - 1).first().1) + spec_elif_count(arms.skip(i)));
        }
    } else {
        assert(arms.skip(0) =~= arms);
    }
}

proof fn lemma_stmts_count_skip_le(ss: Seq<Statement>, i: int)
    requires
        0 <= i <= ss.len(),
    ensures
        spec_stmts_count(ss.skip(i)) <= spec_stmts_count(ss),
    decreases i,
{
    if i > 0 {
        lemma_stmts_count_skip_le(ss, i - 1);
        assert(ss.skip(i - 1).drop_first() =~= ss.skip(i));
        if ss.skip(i - 1).len() > 0 {
            assert(spec_stmts_count(ss.skip(i - 1))
                == spec_stmt_count(ss.skip(i - 1).first()) + spec_stmts_count(ss.skip(i)));
        }
    } else {
        assert(ss.skip(0) =~= ss);
    }
}

impl Block {
    /// Recursively counts the block's statements; saturates at the machine
    /// limit.
    pub fn recursive_count(&self) -> (r: usize)
        ensures
            r == clamped(spec_block_count(*self) as int),
        decreases *self,
    {
        let mut total: usize = 0;
        let n = self.statements.len();
        let mut i: usize = 0;
        proof {
            assert(self.statements@.skip(0) =~= self.statements@);
        }
        while i < n
            invariant
                i <= n,
                n == self.statements@.len(),
                total == clamped(
                    spec_stmts_count(self.statements@)
                        - spec_stmts_count(self.statements@.skip(i as int)),
                ),
                spec_stmts_count(self.statements@.skip(i as int))
                    <= spec_stmts_count(self.statements@),
            decreases n - i,
        {
            proof {
                assert(self.statements@.skip(i as int).first() == self.statements@[i as int]);
                assert(self.statements@.skip(i as int).drop_first()
                    =~= self.statements@.skip(i as int + 1));
                lemma_stmts_count_skip_le(self.statements@, i as int + 1);
            }
            let s = &self.statements[i];
            total = sat_add(total, s.recursive_count());
            i = i + 1;
        }
        proof {
            assert(self.statements@.skip(n as int).len() == 0);
        }
        total
    }

    /// Whether the block holds no statements.
    pub fn is_empty(&self) -> (r: bool)
        ensures
            r == (self.statements@.len() == 0),
    {
        self.statements.len() == 0
    }
}

/// The Function statements of a list, in order.
pub open spec fn spec_functions(ss: Seq<Statement>) -> Seq<Function>
    decreases ss,
{
    if ss.len() == 0 {
        Seq::empty()
    } else {
        spec_functions(ss.drop_last())
            + match ss.last() {
                Statement::Function(f) => seq![f],
                _ => Seq::empty(),
            }
    }
}

impl Program {
    /// The function definitions of the program, in order.
    pub fn functions(&self) -> (r: Vec<&Function>)
        ensures
            r@.len() == spec_functions(self.statements@).len(),
            forall|i: int| 0 <= i < r@.len()
                ==> *(#[trigger] r@[i]) == spec_functions(self.statements@)[i],
    {
        let mut r: Vec<&Function> = Vec::new();
        let n = self.statements.len();
        let mut i: usize = 0;
        proof {
            assert(self.statements@.subrange(0, 0) =~= Seq::<Statement>::empty());
        }
        while i < n
            invariant
                i <= n,
                n == self.statements@.len(),
                r@.len() == spec_functions(self.statements@.subrange(0, i as int)).len(),
                forall|k: int| 0 <= k < r@.len()
                    ==> *(#[trigger] r@[k])
                        == spec_functions(self.statements@.subrange(0, i as int))[k],
            decreases n - i,
        {
            proof {
                let pre = self.statements@.subrange(0, i as int + 1);
                assert(pre.drop_last() =~= self.statements@.subrange(0, i as int));
                assert(pre.last() == self.statements@[i as int]);
            }
            match &self.statements[i] {
                Statement::Function(f) => {
                    r.push(f);
                },
                _ => {},
            }
            i = i + 1;
        }
        proof {
            assert(self.statements@.subrange(0, n as int) =~= self.statements@);
        }
        r
    }

    /// The total number of statements, counted recursively; saturates at the
    /// machine limit.
    pub fn statement_count(&self) -> (r: usize)
        ensures
            r == clamped(spec_stmts_count(self.statements@) as int),
    {
        let mut total: usize = 0;
        let n = self.statements.len();
        let mut i: usize = 0;
        proof {
            assert(self.statements@.skip(0) =~= self.statements@);
        }
        while i < n
            invariant
                i <= n,
                n == self.statements@.len(),
                total == clamped(
                    spec_stmts_count(self.statements@)
                        - spec_stmts_count(self.statements@.skip(i as int)),
                ),
                spec_stmts_count(self.statements@.skip(i as int))
                    <= spec_stmts_count(self.statements@),
            decreases n - i,
        {
            proof {
                assert(self.statements@.skip(i as int).first() == self.statements@[i as int]);
                assert(self.statements@.skip(i as int).drop_first()
                    =~= self.statements@.skip(i as int + 1));
                lemma_stmts_count_skip_le(self.statements@, i as int + 1);
            }
            let s = &self.statements[i];
            total = sat_add(total, s.recursive_count());
            i = i + 1;
        }
        proof {
            assert(self.statements@.skip(n as int).len() == 0);
        }
        total
    }
}

} // verus!
