//! The lexer: source text to a token stream, or a non-empty list of
//! diagnostics.
//!
//! Source is processed line by line. For each non-blank, non-comment line the
//! leading spaces are counted (tabs are an error) and compared against an
//! indent stack: a greater width pushes and emits one INDENT, a smaller width
//! pops and emits one DEDENT per pop (a width that matches no stack entry is
//! an error), an equal width emits nothing. Every effective line ends with one
//! NEWLINE token; at end of input one DEDENT is emitted per remaining stack
//! entry above zero, then EOF.
//!
//! Offsets in spans and in the spec functions below index the source's
//! character sequence.

use vstd::prelude::*;

use crate::span::Span;
use crate::strutil::{chars_of, chars_to_string, push_char, sat_add, str_eq};
use crate::token::{Token, TokenKind};

verus! {

#[derive(Debug, Clone)]
pub enum LexerError {
    TabsNotAllowed { line: usize, column: usize, span: Span },
    IndentationMismatch { line: usize, expected: usize, found: usize, span: Span },
    UnterminatedString { line: usize, column: usize, span: Span },
    UnexpectedCharacter { ch: char, line: usize, column: usize, span: Span },
}

pub type LexResult<T> = Result<T, Vec<LexerError>>;

impl LexerError {
    pub open spec fn spec_span(&self) -> Span {
        match *self {
            LexerError::TabsNotAllowed { span, .. } => span,
            LexerError::IndentationMismatch { span, .. } => span,
            LexerError::UnterminatedString { span, .. } => span,
            LexerError::UnexpectedCharacter { span, .. } => span,
        }
    }

    /// Renders the error as an error-severity diagnostic at its span.
    pub fn to_diagnostic(&self, source_id: &str) -> (d: crate::errors::Diagnostic)
        ensures
            d.spec_severity() == crate::errors::DiagnosticSeverity::Error,
            d.spec_source_id() == source_id@,
            d.spec_span() == self.spec_span(),
    {
        match self {
            LexerError::TabsNotAllowed { span, .. } => crate::errors::Diagnostic::new(
                crate::errors::DiagnosticSeverity::Error,
                String::from_str(source_id),
                *span,
                String::from_str("tabs are not allowed for indentation"),
            ),
            LexerError::IndentationMismatch { span, .. } => crate::errors::Diagnostic::new(
                crate::errors::DiagnosticSeverity::Error,
                String::from_str(source_id),
                *span,
                String::from_str("indentation mismatch"),
            ),
            LexerError::UnterminatedString { span, .. } => crate::errors::Diagnostic::new(
                crate::errors::DiagnosticSeverity::Error,
                String::from_str(source_id),
                *span,
                String::from_str("unterminated string literal"),
            ),
            LexerError::UnexpectedCharacter { span, .. } => crate::errors::Diagnostic::new(
                crate::errors::DiagnosticSeverity::Error,
                String::from_str(source_id),
                *span,
                String::from_str("unexpected character"),
            ),
        }
    }
}

/// Characters that the line classifier treats as blank.
pub open spec fn is_blankish(c: char) -> bool {
    c == ' ' || c == '\t' || c == '\r'
}

/// The offset of the line terminator of the line starting at `i` (the offset
/// of the next '\n', or the end of the source).
pub open spec fn line_end_from(s: Seq<char>, i: int) -> int
    decreases s.len() - i when 0 <= i <= s.len()
{
    if i >= s.len() {
        s.len() as int
    } else if s[i] == '\n' {
        i
    } else {
        line_end_from(s, i + 1)
    }
}

/// The offset of the first character of the line starting at `i` that is
/// neither a space nor a tab, bounded by the line terminator.
pub open spec fn indent_end_from(s: Seq<char>, i: int, e: int) -> int
    decreases e - i when 0 <= i <= e
{
    if i >= e {
        e
    } else if s[i] == ' ' || s[i] == '\t' {
        indent_end_from(s, i + 1, e)
    } else {
        i
    }
}

/// The start of the line after the one starting at `i`.
pub open spec fn next_line_start(s: Seq<char>, i: int) -> int {
    if line_end_from(s, i) < s.len() {
        line_end_from(s, i) + 1
    } else {
        s.len() as int
    }
}

/// Whether the line starting at `i` is effective: neither blank nor a
/// comment-only line. Exactly the effective lines produce a NEWLINE token.
pub open spec fn line_is_effective(s: Seq<char>, i: int) -> bool {
    let e = line_end_from(s, i);
    let j = indent_end_from(s, i, e);
    j < e && s[j] != '#' && exists|k: int| j <= k < e && !is_blankish(s[k])
}

/// How many effective lines start at or after offset `i`.
pub open spec fn eff_count(s: Seq<char>, i: int) -> int
    decreases s.len() - i when 0 <= i <= s.len() via eff_count_decreases
{
    if i >= s.len() {
        0
    } else {
        (if line_is_effective(s, i) { 1int } else { 0 }) + eff_count(s, next_line_start(s, i))
    }
}

#[via_fn]
proof fn eff_count_decreases(s: Seq<char>, i: int) {
    if 0 <= i < s.len() {
        lemma_line_end_from_props(s, i);
    }
}

/// How many of the characters in `[i, j)` are spaces: the indentation width
/// the protocol compares (tabs are reported, not counted).
pub open spec fn count_spaces(s: Seq<char>, i: int, j: int) -> int
    decreases j - i when 0 <= i <= j
{
    if i >= j {
        0
    } else {
        (if s[i] == ' ' { 1int } else { 0 }) + count_spaces(s, i + 1, j)
    }
}

proof fn lemma_count_spaces_extend(s: Seq<char>, i: int, j: int)
    requires
        0 <= i <= j < s.len(),
    ensures
        count_spaces(s, i, j + 1) == count_spaces(s, i, j) + (if s[j] == ' ' { 1int } else { 0 }),
    decreases j - i,
{
    if i < j {
        lemma_count_spaces_extend(s, i + 1, j);
    } else {
        assert(count_spaces(s, j + 1, j + 1) == 0);
        assert(count_spaces(s, j, j) == 0);
    }
}

/// A tab stands in the leading whitespace of the line starting at `i`.
pub open spec fn spec_line_tab_error(s: Seq<char>, i: int) -> bool {
    exists|k: int|
        i <= k < indent_end_from(s, i, line_end_from(s, i)) && s[k] == '\t'
}

/// The first `"` at or after `i`, bounded by `e`.
pub open spec fn quote_end(s: Seq<char>, i: int, e: int) -> int
    decreases e - i when 0 <= i <= e
{
    if i >= e {
        e
    } else if s[i] == '"' {
        i
    } else {
        quote_end(s, i + 1, e)
    }
}

/// The end of a digits-and-underscores run starting at `i`.
pub open spec fn num_run_end(s: Seq<char>, i: int, e: int) -> int
    decreases e - i when 0 <= i <= e
{
    if i >= e {
        e
    } else if is_digit(s[i]) || s[i] == '_' {
        num_run_end(s, i + 1, e)
    } else {
        i
    }
}

/// The end of an identifier run starting at `i`.
pub open spec fn ident_run_end(s: Seq<char>, i: int, e: int) -> int
    decreases e - i when 0 <= i <= e
{
    if i >= e {
        e
    } else if is_ident_char(s[i]) {
        ident_run_end(s, i + 1, e)
    } else {
        i
    }
}

proof fn lemma_quote_end_props(s: Seq<char>, i: int, e: int)
    requires
        0 <= i <= e <= s.len(),
    ensures
        i <= quote_end(s, i, e) <= e,
        quote_end(s, i, e) < e ==> s[quote_end(s, i, e)] == '"',
        forall|k: int| i <= k < quote_end(s, i, e) ==> s[k] != '"',
    decreases e - i,
{
    if i < e && s[i] != '"' {
        lemma_quote_end_props(s, i + 1, e);
    }
}

proof fn lemma_quote_end_unique(s: Seq<char>, i: int, e: int, q: int)
    requires
        0 <= i <= q <= e <= s.len(),
        forall|k: int| i <= k < q ==> s[k] != '"',
        q == e || s[q] == '"',
    ensures
        q == quote_end(s, i, e),
    decreases q - i,
{
    if i < q {
        lemma_quote_end_unique(s, i + 1, e, q);
    }
}

proof fn lemma_num_run_end_unique(s: Seq<char>, i: int, e: int, q: int)
    requires
        0 <= i <= q <= e <= s.len(),
        forall|k: int| i <= k < q ==> is_digit(s[k]) || s[k] == '_',
        q == e || !(is_digit(s[q]) || s[q] == '_'),
    ensures
        q == num_run_end(s, i, e),
    decreases q - i,
{
    if i < q {
        lemma_num_run_end_unique(s, i + 1, e, q);
    }
}

proof fn lemma_ident_run_end_unique(s: Seq<char>, i: int, e: int, q: int)
    requires
        0 <= i <= q <= e <= s.len(),
        forall|k: int| i <= k < q ==> is_ident_char(s[k]),
        q == e || !is_ident_char(s[q]),
    ensures
        q == ident_run_end(s, i, e),
    decreases q - i,
{
    if i < q {
        lemma_ident_run_end_unique(s, i + 1, e, q);
    }
}

/// Whether scanning the line's content `[p, e)` raises a diagnostic: an
/// unterminated string or f-string, or a character no token starts with.
/// The walk takes the same steps as the scanner.
pub open spec fn scan_err(s: Seq<char>, p: int, e: int) -> bool
    decreases e - p when 0 <= p <= e <= s.len() via scan_err_decreases
{
    if p >= e {
        false
    } else {
        let c = s[p];
        if c == ' ' || c == '\t' {
            scan_err(s, p + 1, e)
        } else if c == '#' {
            false
        } else if c == '(' || c == ')' || c == ',' || c == ':' || c == '%' || c == '&'
            || c == '|' {
            scan_err(s, p + 1, e)
        } else if c == '+' || c == '*' || c == '/' || c == '=' || c == '!' || c == '<'
            || c == '>' {
            if p + 1 < e && s[p + 1] == '=' {
                scan_err(s, p + 2, e)
            } else {
                scan_err(s, p + 1, e)
            }
        } else if c == '-' {
            if p + 1 < e && (s[p + 1] == '=' || s[p + 1] == '>') {
                scan_err(s, p + 2, e)
            } else {
                scan_err(s, p + 1, e)
            }
        } else if c == '.' {
            if p + 1 < e && s[p + 1] == '.' {
                scan_err(s, p + 2, e)
            } else {
                scan_err(s, p + 1, e)
            }
        } else if c == '"' {
            let q = quote_end(s, p + 1, e);
            if q >= e {
                true
            } else {
                scan_err(s, q + 1, e)
            }
        } else if is_digit(c) {
            let d = num_run_end(s, p + 1, e);
            if d < e && s[d] == '.' && d + 1 < e && is_digit(s[d + 1]) {
                scan_err(s, num_run_end(s, d + 1, e), e)
            } else {
                scan_err(s, d, e)
            }
        } else if is_ident_start(c) {
            if c == 'f' && p + 1 < e && s[p + 1] == '"' {
                let q = quote_end(s, p + 2, e);
                if q >= e {
                    true
                } else {
                    scan_err(s, q + 1, e)
                }
            } else {
                scan_err(s, ident_run_end(s, p + 1, e), e)
            }
        } else {
            true
        }
    }
}

#[via_fn]
proof fn scan_err_decreases(s: Seq<char>, p: int, e: int) {
    if 0 <= p && p < e && e <= s.len() {
        lemma_quote_end_props(s, p + 1, e);
        if p + 2 <= e {
            lemma_quote_end_props(s, p + 2, e);
        }
        lemma_num_run_end_props(s, p + 1, e);
        let d = num_run_end(s, p + 1, e);
        if d + 1 <= e {
            lemma_num_run_end_props(s, d + 1, e);
        }
        lemma_ident_run_end_props(s, p + 1, e);
    }
}

proof fn lemma_num_run_end_props(s: Seq<char>, i: int, e: int)
    requires
        0 <= i <= e <= s.len(),
    ensures
        i <= num_run_end(s, i, e) <= e,
    decreases e - i,
{
    if i < e && (is_digit(s[i]) || s[i] == '_') {
        lemma_num_run_end_props(s, i + 1, e);
    }
}

proof fn lemma_ident_run_end_props(s: Seq<char>, i: int, e: int)
    requires
        0 <= i <= e <= s.len(),
    ensures
        i <= ident_run_end(s, i, e) <= e,
    decreases e - i,
{
    if i < e && is_ident_char(s[i]) {
        lemma_ident_run_end_props(s, i + 1, e);
    }
}

/// The indent stack with every entry above `w` closed.
pub open spec fn spec_pop_stack(st: Seq<int>, w: int) -> Seq<int>
    decreases st.len(),
{
    if st.len() > 0 && st.last() > w {
        spec_pop_stack(st.drop_last(), w)
    } else {
        st
    }
}

/// After popping, the stack top must read exactly the new width; a width
/// that matches no open indent is a mismatch.
pub open spec fn spec_line_mismatch(st: Seq<int>, w: int) -> bool {
    st.len() > 0 && w < st.last()
        && (spec_pop_stack(st, w).len() == 0 || spec_pop_stack(st, w).last() != w)
}

/// The indent stack after an effective line of width `w`.
pub open spec fn spec_stack_after(st: Seq<int>, w: int) -> Seq<int> {
    if st.len() > 0 && w > st.last() {
        st.push(w)
    } else {
        spec_pop_stack(st, w)
    }
}

/// Whether any line at or after `i` raises a lexer diagnostic, the indent
/// stack standing at `st`: a tab in leading whitespace, an indentation
/// mismatch on an effective line, or a scan error in an effective line's
/// content.
pub open spec fn lex_errors_from(s: Seq<char>, i: int, st: Seq<int>) -> bool
    decreases s.len() - i when 0 <= i <= s.len() via lex_errors_from_decreases
{
    if i >= s.len() {
        false
    } else {
        let e = line_end_from(s, i);
        let j = indent_end_from(s, i, e);
        let w = count_spaces(s, i, j);
        spec_line_tab_error(s, i) || (if line_is_effective(s, i) {
            spec_line_mismatch(st, w) || scan_err(s, j, e)
                || lex_errors_from(s, next_line_start(s, i), spec_stack_after(st, w))
        } else {
            lex_errors_from(s, next_line_start(s, i), st)
        })
    }
}

#[via_fn]
proof fn lex_errors_from_decreases(s: Seq<char>, i: int, st: Seq<int>) {
    if 0 <= i < s.len() {
        lemma_line_end_from_props(s, i);
    }
}

/// Whether lexing the source reports at least one diagnostic.
pub open spec fn spec_has_lex_error(s: Seq<char>) -> bool {
    lex_errors_from(s, 0, seq![0int])
}

/// How many NEWLINE tokens a stream holds.
pub open spec fn cnt_newline(ts: Seq<Token>) -> int
    decreases ts.len()
{
    if ts.len() == 0 {
        0
    } else {
        cnt_newline(ts.drop_last()) + (if ts.last().kind is Newline { 1int } else { 0 })
    }
}

/// How many INDENT tokens a stream holds.
pub open spec fn cnt_indent(ts: Seq<Token>) -> int
    decreases ts.len()
{
    if ts.len() == 0 {
        0
    } else {
        cnt_indent(ts.drop_last()) + (if ts.last().kind is Indent { 1int } else { 0 })
    }
}

/// How many DEDENT tokens a stream holds.
pub open spec fn cnt_dedent(ts: Seq<Token>) -> int
    decreases ts.len()
{
    if ts.len() == 0 {
        0
    } else {
        cnt_dedent(ts.drop_last()) + (if ts.last().kind is Dedent { 1int } else { 0 })
    }
}

proof fn lemma_cnt_push(ts: Seq<Token>, t: Token)
    ensures
        cnt_newline(ts.push(t)) == cnt_newline(ts) + (if t.kind is Newline { 1int } else { 0 }),
        cnt_indent(ts.push(t)) == cnt_indent(ts) + (if t.kind is Indent { 1int } else { 0 }),
        cnt_dedent(ts.push(t)) == cnt_dedent(ts) + (if t.kind is Dedent { 1int } else { 0 }),
{
    assert(ts.push(t).drop_last() =~= ts);
    assert(ts.push(t).last() == t);
}

proof fn lemma_line_end_from_props(s: Seq<char>, i: int)
    requires
        0 <= i <= s.len(),
    ensures
        i <= line_end_from(s, i) <= s.len(),
        line_end_from(s, i) < s.len() ==> s[line_end_from(s, i)] == '\n',
        forall|k: int| i <= k < line_end_from(s, i) ==> s[k] != '\n',
    decreases s.len() - i,
{
    if i < s.len() && s[i] != '\n' {
        lemma_line_end_from_props(s, i + 1);
    }
}

proof fn lemma_line_end_from_unique(s: Seq<char>, i: int, j: int)
    requires
        0 <= i <= j <= s.len(),
        forall|k: int| i <= k < j ==> s[k] != '\n',
        j == s.len() || s[j] == '\n',
    ensures
        j == line_end_from(s, i),
    decreases j - i,
{
    if i < j {
        lemma_line_end_from_unique(s, i + 1, j);
    }
}

proof fn lemma_indent_end_from_unique(s: Seq<char>, i: int, e: int, j: int)
    requires
        0 <= i <= j <= e <= s.len(),
        forall|k: int| i <= k < j ==> (s[k] == ' ' || s[k] == '\t'),
        j == e || !(s[j] == ' ' || s[j] == '\t'),
    ensures
        j == indent_end_from(s, i, e),
    decreases j - i,
{
    if i < j {
        lemma_indent_end_from_unique(s, i + 1, e, j);
    }
}

pub open spec fn is_digit(c: char) -> bool {
    48 <= c as u32 && c as u32 <= 57
}

pub open spec fn is_alpha(c: char) -> bool {
    (65 <= c as u32 && c as u32 <= 90) || (97 <= c as u32 && c as u32 <= 122)
}

pub open spec fn is_ident_start(c: char) -> bool {
    is_alpha(c) || c == '_'
}

pub open spec fn is_ident_char(c: char) -> bool {
    is_alpha(c) || is_digit(c) || c == '_'
}

fn digit_char(c: char) -> (b: bool)
    ensures
        b == is_digit(c),
{
    let u = c as u32;
    48 <= u && u <= 57
}

fn alpha_char(c: char) -> (b: bool)
    ensures
        b == is_alpha(c),
{
    let u = c as u32;
    (65 <= u && u <= 90) || (97 <= u && u <= 122)
}

/// Which token tag a reserved word maps to, if any.
pub open spec fn spec_keyword(s: Seq<char>) -> Option<TokenKind> {
    if s == "fn"@ { Some(TokenKind::Fn) }
    else if s == "let"@ { Some(TokenKind::Let) }
    else if s == "print"@ { Some(TokenKind::Print) }
    else if s == "return"@ { Some(TokenKind::Return) }
    else if s == "if"@ { Some(TokenKind::If) }
    else if s == "elif"@ { Some(TokenKind::Elif) }
    else if s == "else"@ { Some(TokenKind::Else) }
    else if s == "while"@ { Some(TokenKind::While) }
    else if s == "for"@ { Some(TokenKind::For) }
    else if s == "in"@ { Some(TokenKind::In) }
    else if s == "break"@ { Some(TokenKind::Break) }
    else if s == "continue"@ { Some(TokenKind::Continue) }
    else if s == "use"@ { Some(TokenKind::Use) }
    else if s == "from"@ { Some(TokenKind::From) }
    else if s == "as"@ { Some(TokenKind::As) }
    else if s == "async"@ { Some(TokenKind::Async) }
    else if s == "await"@ { Some(TokenKind::Await) }
    else if s == "spawn"@ { Some(TokenKind::Spawn) }
    else if s == "match"@ { Some(TokenKind::Match) }
    else if s == "case"@ { Some(TokenKind::Case) }
    else if s == "true"@ { Some(TokenKind::True) }
    else if s == "false"@ { Some(TokenKind::False) }
    else { None }
}

/// Maps a lexed word to its keyword tag, or wraps it as an identifier.
fn keyword_kind(lexeme: String) -> (k: TokenKind)
    ensures
        match spec_keyword(lexeme@) {
            Some(kk) => k == kk,
            None => k matches TokenKind::Identifier(id) && id@ == lexeme@,
        },
{
    if str_eq(lexeme.as_str(), "fn") { TokenKind::Fn }
    else if str_eq(lexeme.as_str(), "let") { TokenKind::Let }
    else if str_eq(lexeme.as_str(), "print") { TokenKind::Print }
    else if str_eq(lexeme.as_str(), "return") { TokenKind::Return }
    else if str_eq(lexeme.as_str(), "if") { TokenKind::If }
    else if str_eq(lexeme.as_str(), "elif") { TokenKind::Elif }
    else if str_eq(lexeme.as_str(), "else") { TokenKind::Else }
    else if str_eq(lexeme.as_str(), "while") { TokenKind::While }
    else if str_eq(lexeme.as_str(), "for") { TokenKind::For }
    else if str_eq(lexeme.as_str(), "in") { TokenKind::In }
    else if str_eq(lexeme.as_str(), "break") { TokenKind::Break }
    else if str_eq(lexeme.as_str(), "continue") { TokenKind::Continue }
    else if str_eq(lexeme.as_str(), "use") { TokenKind::Use }
    else if str_eq(lexeme.as_str(), "from") { TokenKind::From }
    else if str_eq(lexeme.as_str(), "as") { TokenKind::As }
    else if str_eq(lexeme.as_str(), "async") { TokenKind::Async }
    else if str_eq(lexeme.as_str(), "await") { TokenKind::Await }
    else if str_eq(lexeme.as_str(), "spawn") { TokenKind::Spawn }
    else if str_eq(lexeme.as_str(), "match") { TokenKind::Match }
    else if str_eq(lexeme.as_str(), "case") { TokenKind::Case }
    else if str_eq(lexeme.as_str(), "true") { TokenKind::True }
    else if str_eq(lexeme.as_str(), "false") { TokenKind::False }
    else { TokenKind::Identifier(lexeme) }
}

/// Pushes a diagnostic.
fn push_err(errors: &mut Vec<LexerError>, e: LexerError)
    ensures
        final(errors)@ == old(errors)@.push(e),
        final(errors)@.len() == old(errors)@.len() + 1,
{
    errors.push(e);
}

/// Every prefix of a stream with its DEDENTs never ahead of its INDENTs.
pub open spec fn well_nested(ts: Seq<Token>) -> bool {
    forall|q: int| 0 <= q <= ts.len()
        ==> cnt_dedent(#[trigger] ts.take(q)) <= cnt_indent(ts.take(q))
}

/// Pushes a token, tracking how the structural-token counters change; every
/// old prefix keeps its counts, and the new full prefix is the old one plus
/// the pushed token.
fn push_token(tokens: &mut Vec<Token>, t: Token)
    ensures
        final(tokens)@ == old(tokens)@.push(t),
        cnt_newline(final(tokens)@) == cnt_newline(old(tokens)@)
            + (if t.kind is Newline { 1int } else { 0 }),
        cnt_indent(final(tokens)@) == cnt_indent(old(tokens)@)
            + (if t.kind is Indent { 1int } else { 0 }),
        cnt_dedent(final(tokens)@) == cnt_dedent(old(tokens)@)
            + (if t.kind is Dedent { 1int } else { 0 }),
        cnt_indent(final(tokens)@) - cnt_dedent(final(tokens)@)
            >= cnt_indent(old(tokens)@) - cnt_dedent(old(tokens)@) - 1,
        well_nested(old(tokens)@)
            && cnt_dedent(final(tokens)@) <= cnt_indent(final(tokens)@)
            ==> well_nested(final(tokens)@),
{
    proof {
        lemma_cnt_push(tokens@, t);
    }
    let ghost olds = tokens@;
    tokens.push(t);
    proof {
        if well_nested(olds)
            && cnt_dedent(tokens@) <= cnt_indent(tokens@) {
            assert forall|q: int| 0 <= q <= tokens@.len()
                implies cnt_dedent(#[trigger] tokens@.take(q)) <= cnt_indent(tokens@.take(q)) by {
                if q <= olds.len() {
                    assert(tokens@.take(q) =~= olds.take(q));
                } else {
                    assert(tokens@.take(q) =~= tokens@);
                }
            }
        }
    }
}

/// Lexes a source text into tokens.
///
/// On success the stream ends with exactly one EOF token, holds one NEWLINE
/// token per effective (non-blank, non-comment) source line, and its INDENT
/// and DEDENT tokens balance to zero. The result is an error exactly when
/// the source holds a lexer diagnostic: a tab in leading whitespace, an
/// indentation mismatch, an unterminated string, or a character no token
/// starts with; then the diagnostic list is non-empty and no tokens are
/// handed out.
#[verifier::rlimit(100)]
pub fn tokenize(source: &str) -> (r: LexResult<Vec<Token>>)
    ensures
        r matches Ok(tokens) ==> {
            &&& tokens@.len() > 0
            &&& tokens@.last().kind is Eof
            &&& forall|k: int|
                0 <= k < tokens@.len() - 1 ==> !((#[trigger] tokens@[k]).kind is Eof)
            &&& cnt_newline(tokens@) == eff_count(source@, 0)
            &&& cnt_indent(tokens@) == cnt_dedent(tokens@)
            &&& well_nested(tokens@)
            &&& forall|k: int| 0 <= k < tokens@.len()
                && (#[trigger] tokens@[k]).kind is Newline
                ==> tokens@[k].span.start <= source@.len()
                    && (tokens@[k].span.start == source@.len()
                        || source@[tokens@[k].span.start as int] == '\n')
        },
        r is Err <==> spec_has_lex_error(source@),
        r matches Err(es) ==> es@.len() > 0,
{
    let chars = chars_of(source);
    let n = chars.len();
    let mut tokens: Vec<Token> = Vec::new();
    let mut errors: Vec<LexerError> = Vec::new();
    let mut indent_stack: Vec<usize> = Vec::new();
    indent_stack.push(0);
    let ghost mut gstack: Seq<int> = seq![0int];
    let mut line_start: usize = 0;
    let mut line_no: usize = 1;

    while line_start < n
        invariant
            n == chars@.len(),
            chars@ == source@,
            line_start <= n,
            indent_stack@.len() >= 1,
            indent_stack@[0] == 0,
            gstack.len() == indent_stack@.len(),
            forall|k: int| 0 <= k < gstack.len() ==> gstack[k] == indent_stack@[k] as int,
            cnt_indent(tokens@) - cnt_dedent(tokens@) == indent_stack@.len() - 1,
            cnt_newline(tokens@) + eff_count(chars@, line_start as int) == eff_count(chars@, 0),
            forall|k: int| 0 <= k < tokens@.len() ==> !((#[trigger] tokens@[k]).kind is Eof),
            forall|k: int| 0 <= k < tokens@.len()
                && (#[trigger] tokens@[k]).kind is Newline
                ==> tokens@[k].span.start <= n
                    && (tokens@[k].span.start == n
                        || chars@[tokens@[k].span.start as int] == '\n'),
            well_nested(tokens@),
            spec_has_lex_error(chars@)
                == (errors@.len() > 0 || lex_errors_from(chars@, line_start as int, gstack)),
        decreases n - line_start,
    {
        let ghost ls = line_start as int;
        let ghost errs0 = errors@.len() as int;

        // Locate the line terminator.
        let mut le: usize = line_start;
        while le < n && chars[le] != '\n'
            invariant
                line_start <= le <= n,
                n == chars@.len(),
                forall|k: int| line_start <= k < le ==> chars@[k] != '\n',
            decreases n - le,
        {
            le = le + 1;
        }
        proof {
            lemma_line_end_from_unique(chars@, ls, le as int);
        }

        // Count the leading spaces; tabs are reported and skipped.
        let mut idx: usize = line_start;
        let mut indent_width: usize = 0;
        proof {
            assert(count_spaces(chars@, ls, ls) == 0);
        }
        while idx < le && (chars[idx] == ' ' || chars[idx] == '\t')
            invariant
                ls == line_start as int,
                line_start <= idx <= le <= n,
                n == chars@.len(),
                indent_width <= idx - line_start,
                forall|k: int| line_start <= k < idx ==> (chars@[k] == ' ' || chars@[k] == '\t'),
                indent_width == count_spaces(chars@, ls, idx as int),
                errors@.len() >= errs0,
                (errors@.len() > errs0)
                    == (exists|k: int| ls <= k < idx && chars@[k] == '\t'),
            decreases le - idx,
        {
            proof {
                lemma_count_spaces_extend(chars@, ls, idx as int);
            }
            if chars[idx] == ' ' {
                indent_width = indent_width + 1;
                proof {
                    if exists|k: int| ls <= k < idx as int + 1 && chars@[k] == '\t' {
                        let k0 = choose|k0: int|
                            ls <= k0 < idx as int + 1 && chars@[k0] == '\t';
                        assert(k0 < idx as int);
                        assert(exists|k: int| ls <= k < idx as int && chars@[k] == '\t');
                    }
                }
            } else {
                let sp = Span::new(idx, sat_add(idx, 1));
                push_err(&mut errors, LexerError::TabsNotAllowed {
                    line: line_no,
                    column: idx - line_start + 1,
                    span: sp,
                });
                proof {
                    assert(ls <= idx as int && chars@[idx as int] == '\t');
                    assert(exists|k: int| ls <= k < idx as int + 1 && chars@[k] == '\t');
                }
            }
            idx = idx + 1;
        }
        proof {
            lemma_indent_end_from_unique(chars@, ls, le as int, idx as int);
            assert((errors@.len() > errs0) == spec_line_tab_error(chars@, ls));
        }

        // Blank or comment-only lines emit nothing structural.
        let mut found = false;
        let mut scan: usize = idx;
        while scan < le && !found
            invariant
                idx <= scan <= le <= n,
                n == chars@.len(),
                !found ==> forall|m: int| idx <= m < scan ==> is_blankish(chars@[m]),
                found ==> exists|m: int| idx <= m < le && !is_blankish(chars@[m]),
            decreases le - scan + (if found { 0int } else { 1 }),
        {
            let c = chars[scan];
            if c == ' ' || c == '\t' || c == '\r' {
                scan = scan + 1;
            } else {
                found = true;
            }
        }
        let effective = if found { !(chars[idx] == '#') } else { false };
        proof {
            assert(effective == line_is_effective(chars@, ls));
        }

        if !effective {
            proof {
                assert(eff_count(chars@, ls)
                    == eff_count(chars@, next_line_start(chars@, ls)));
                assert(lex_errors_from(chars@, ls, gstack)
                    == (spec_line_tab_error(chars@, ls)
                        || lex_errors_from(chars@, next_line_start(chars@, ls), gstack)));
            }
            line_no = sat_add(line_no, 1);
            line_start = if le < n { le + 1 } else { n };
            continue;
        }

        // Indentation protocol against the stack.
        let ghost entry_stack = gstack;
        let ghost w = count_spaces(chars@, ls, indent_end_from(chars@, ls, le as int));
        proof {
            assert(w == indent_width as int);
        }
        let current_indent = indent_width;
        let last_indent = indent_stack[indent_stack.len() - 1];
        proof {
            assert(gstack.last() == last_indent as int);
        }
        if current_indent > last_indent {
            indent_stack.push(current_indent);
            proof {
                gstack = gstack.push(current_indent as int);
                assert(gstack == spec_stack_after(entry_stack, w));
                assert(!spec_line_mismatch(entry_stack, w));
            }
            let sp = Span::new(sat_add(line_start, last_indent), sat_add(line_start, current_indent));
            push_token(&mut tokens, Token::new(TokenKind::Indent, sp));
        } else if current_indent < last_indent {
            let mut top = indent_stack[indent_stack.len() - 1];
            while current_indent < top
                invariant
                    indent_stack@.len() >= 1,
                    indent_stack@[0] == 0,
                    top == indent_stack@.last(),
                    gstack.len() == indent_stack@.len(),
                    forall|k: int| 0 <= k < gstack.len() ==> gstack[k] == indent_stack@[k] as int,
                    spec_pop_stack(entry_stack, w) == spec_pop_stack(gstack, w),
                    w == current_indent as int,
                    cnt_indent(tokens@) - cnt_dedent(tokens@) == indent_stack@.len() - 1,
                    cnt_newline(tokens@) + eff_count(chars@, ls) == eff_count(chars@, 0),
                    forall|k: int| 0 <= k < tokens@.len() ==> !((#[trigger] tokens@[k]).kind is Eof),
                    n == chars@.len(),
            forall|k: int| 0 <= k < tokens@.len()
                && (#[trigger] tokens@[k]).kind is Newline
                ==> tokens@[k].span.start <= n
                    && (tokens@[k].span.start == n
                        || chars@[tokens@[k].span.start as int] == '\n'),
            well_nested(tokens@),
                decreases indent_stack@.len(),
            {
                proof {
                    assert(indent_stack@.len() >= 2);
                    assert(spec_pop_stack(gstack, w) == spec_pop_stack(gstack.drop_last(), w));
                }
                let popped = indent_stack.pop();
                proof {
                    gstack = gstack.drop_last();
                }
                let sp = Span::new(sat_add(line_start, current_indent), sat_add(line_start, top));
                push_token(&mut tokens, Token::new(TokenKind::Dedent, sp));
                top = indent_stack[indent_stack.len() - 1];
            }
            proof {
                assert(spec_pop_stack(gstack, w) == gstack);
                assert(gstack == spec_pop_stack(entry_stack, w));
                assert(gstack == spec_stack_after(entry_stack, w));
                assert(gstack.last() == top as int);
            }
            if current_indent != top {
                let at = sat_add(line_start, current_indent);
                push_err(&mut errors, LexerError::IndentationMismatch {
                    line: line_no,
                    expected: top,
                    found: current_indent,
                    span: Span::new(at, sat_add(at, 1)),
                });
                proof {
                    assert(spec_line_mismatch(entry_stack, w));
                }
            } else {
                proof {
                    assert(!spec_line_mismatch(entry_stack, w));
                }
            }
        } else {
            proof {
                assert(spec_pop_stack(entry_stack, w) == entry_stack);
                assert(gstack == spec_stack_after(entry_stack, w));
                assert(!spec_line_mismatch(entry_stack, w));
            }
        }
        let ghost errs1 = errors@.len() as int;
        proof {
            assert((errs1 > errs0) == (spec_line_tab_error(chars@, ls)
                || spec_line_mismatch(entry_stack, w)));
        }

        // Tokens within the line.
        let mut i: usize = idx;
        while i < le
            invariant
                ls == line_start as int,
                line_start <= idx <= i <= le <= n,
                n == chars@.len(),
                indent_stack@.len() >= 1,
                indent_stack@[0] == 0,
                cnt_indent(tokens@) - cnt_dedent(tokens@) == indent_stack@.len() - 1,
                cnt_newline(tokens@) + eff_count(chars@, ls) == eff_count(chars@, 0),
                forall|k: int| 0 <= k < tokens@.len() ==> !((#[trigger] tokens@[k]).kind is Eof),
            forall|k: int| 0 <= k < tokens@.len()
                && (#[trigger] tokens@[k]).kind is Newline
                ==> tokens@[k].span.start <= n
                    && (tokens@[k].span.start == n
                        || chars@[tokens@[k].span.start as int] == '\n'),
            well_nested(tokens@),
                le as int == line_end_from(chars@, ls),
                idx as int == indent_end_from(chars@, ls, le as int),
                errors@.len() >= errs1,
                (errors@.len() > errs1) ==> scan_err(chars@, idx as int, le as int),
                (errors@.len() == errs1)
                    ==> scan_err(chars@, idx as int, le as int)
                        == scan_err(chars@, i as int, le as int),
            decreases le - i,
        {
            let c = chars[i];
            if c == ' ' || c == '\t' {
                i = i + 1;
            } else if c == '#' {
                i = le;
            } else if c == '(' {
                push_token(&mut tokens, Token::new(TokenKind::LParen, Span::new(i, sat_add(i, 1))));
                i = i + 1;
            } else if c == ')' {
                push_token(&mut tokens, Token::new(TokenKind::RParen, Span::new(i, sat_add(i, 1))));
                i = i + 1;
            } else if c == ',' {
                push_token(&mut tokens, Token::new(TokenKind::Comma, Span::new(i, sat_add(i, 1))));
                i = i + 1;
            } else if c == ':' {
                push_token(&mut tokens, Token::new(TokenKind::Colon, Span::new(i, sat_add(i, 1))));
                i = i + 1;
            } else if c == '%' {
                push_token(&mut tokens, Token::new(TokenKind::Percent, Span::new(i, sat_add(i, 1))));
                i = i + 1;
            } else if c == '&' {
                push_token(&mut tokens, Token::new(TokenKind::Amp, Span::new(i, sat_add(i, 1))));
                i = i + 1;
            } else if c == '|' {
                push_token(&mut tokens, Token::new(TokenKind::Pipe, Span::new(i, sat_add(i, 1))));
                i = i + 1;
            } else if c == '+' {
                if i + 1 < le && chars[i + 1] == '=' {
                    push_token(&mut tokens, Token::new(TokenKind::PlusEq, Span::new(i, sat_add(i, 2))));
                    i = i + 2;
                } else {
                    push_token(&mut tokens, Token::new(TokenKind::Plus, Span::new(i, sat_add(i, 1))));
                    i = i + 1;
                }
            } else if c == '-' {
                if i + 1 < le && chars[i + 1] == '=' {
                    push_token(&mut tokens, Token::new(TokenKind::MinusEq, Span::new(i, sat_add(i, 2))));
                    i = i + 2;
                } else if i + 1 < le && chars[i + 1] == '>' {
                    push_token(&mut tokens, Token::new(TokenKind::Arrow, Span::new(i, sat_add(i, 2))));
                    i = i + 2;
                } else {
                    push_token(&mut tokens, Token::new(TokenKind::Minus, Span::new(i, sat_add(i, 1))));
                    i = i + 1;
                }
            } else if c == '*' {
                if i + 1 < le && chars[i + 1] == '=' {
                    push_token(&mut tokens, Token::new(TokenKind::StarEq, Span::new(i, sat_add(i, 2))));
                    i = i + 2;
                } else {
                    push_token(&mut tokens, Token::new(TokenKind::Star, Span::new(i, sat_add(i, 1))));
                    i = i + 1;
                }
            } else if c == '/' {
                if i + 1 < le && chars[i + 1] == '=' {
                    push_token(&mut tokens, Token::new(TokenKind::SlashEq, Span::new(i, sat_add(i, 2))));
                    i = i + 2;
                } else {
                    push_token(&mut tokens, Token::new(TokenKind::Slash, Span::new(i, sat_add(i, 1))));
                    i = i + 1;
                }
            } else if c == '=' {
                if i + 1 < le && chars[i + 1] == '=' {
                    push_token(&mut tokens, Token::new(TokenKind::EqEq, Span::new(i, sat_add(i, 2))));
                    i = i + 2;
                } else {
                    push_token(&mut tokens, Token::new(TokenKind::Equals, Span::new(i, sat_add(i, 1))));
                    i = i + 1;
                }
            } else if c == '!' {
                if i + 1 < le && chars[i + 1] == '=' {
                    push_token(&mut tokens, Token::new(TokenKind::Neq, Span::new(i, sat_add(i, 2))));
                    i = i + 2;
                } else {
                    push_token(&mut tokens, Token::new(TokenKind::Bang, Span::new(i, sat_add(i, 1))));
                    i = i + 1;
                }
            } else if c == '<' {
                if i + 1 < le && chars[i + 1] == '=' {
                    push_token(&mut tokens, Token::new(TokenKind::LtEq, Span::new(i, sat_add(i, 2))));
                    i = i + 2;
                } else {
                    push_token(&mut tokens, Token::new(TokenKind::Lt, Span::new(i, sat_add(i, 1))));
                    i = i + 1;
                }
            } else if c == '>' {
                if i + 1 < le && chars[i + 1] == '=' {
                    push_token(&mut tokens, Token::new(TokenKind::GtEq, Span::new(i, sat_add(i, 2))));
                    i = i + 2;
                } else {
                    push_token(&mut tokens, Token::new(TokenKind::Gt, Span::new(i, sat_add(i, 1))));
                    i = i + 1;
                }
            } else if c == '.' {
                if i + 1 < le && chars[i + 1] == '.' {
                    push_token(&mut tokens, Token::new(TokenKind::DoubleDot, Span::new(i, sat_add(i, 2))));
                    i = i + 2;
                } else {
                    push_token(&mut tokens, Token::new(TokenKind::Dot, Span::new(i, sat_add(i, 1))));
                    i = i + 1;
                }
            } else if c == '"' {
                let start = i;
                let mut j = i + 1;
                while j < le && chars[j] != '"'
                    invariant
                        i + 1 <= j <= le <= n,
                        n == chars@.len(),
                        forall|k: int| i + 1 <= k < j ==> chars@[k] != '"',
                        errors@.len() >= errs1,
                    decreases le - j,
                {
                    j = j + 1;
                }
                proof {
                    lemma_quote_end_unique(chars@, i as int + 1, le as int, j as int);
                    assert(quote_end(chars@, i as int + 1, le as int) == j as int);
                }
                if j >= le {
                    push_err(&mut errors, LexerError::UnterminatedString {
                        line: line_no,
                        column: start - line_start + 1,
                        span: Span::new(start, le),
                    });
                    i = le;
                } else {
                    let text = chars_to_string(&chars, start + 1, j);
                    push_token(&mut tokens, Token::new(
                        TokenKind::StringLiteral(text),
                        Span::new(start, sat_add(j, 1)),
                    ));
                    i = j + 1;
                }
            } else if digit_char(c) {
                let start = i;
                i = i + 1;
                while i < le && (digit_char(chars[i]) || chars[i] == '_')
                    invariant
                        start < i <= le <= n,
                        n == chars@.len(),
                        forall|k: int| start + 1 <= k < i
                            ==> is_digit(chars@[k]) || chars@[k] == '_',
                        errors@.len() >= errs1,
                    decreases le - i,
                {
                    i = i + 1;
                }
                proof {
                    lemma_num_run_end_unique(chars@, start as int + 1, le as int, i as int);
                }
                if i < le && chars[i] == '.' && i + 1 < le && digit_char(chars[i + 1]) {
                    let ghost d1 = i as int;
                    i = i + 1;
                    while i < le && (digit_char(chars[i]) || chars[i] == '_')
                        invariant
                            d1 < i <= le <= n,
                            n == chars@.len(),
                            forall|k: int| d1 + 1 <= k < i
                                ==> is_digit(chars@[k]) || chars@[k] == '_',
                            errors@.len() >= errs1,
                        decreases le - i,
                    {
                        i = i + 1;
                    }
                    proof {
                        lemma_num_run_end_unique(chars@, d1 + 1, le as int, i as int);
                    }
                }
                let text = chars_to_string(&chars, start, i);
                push_token(&mut tokens, Token::new(TokenKind::Number(text), Span::new(start, i)));
            } else if alpha_char(c) || c == '_' {
                if c == 'f' && i + 1 < le && chars[i + 1] == '"' {
                    // f-string: the raw body is delivered as a single token.
                    let start = i;
                    let mut j = i + 2;
                    while j < le && chars[j] != '"'
                        invariant
                            i + 2 <= j <= le <= n,
                            n == chars@.len(),
                            forall|k: int| i + 2 <= k < j ==> chars@[k] != '"',
                            errors@.len() >= errs1,
                        decreases le - j,
                    {
                        j = j + 1;
                    }
                    proof {
                        lemma_quote_end_unique(chars@, i as int + 2, le as int, j as int);
                        assert(quote_end(chars@, i as int + 2, le as int) == j as int);
                    }
                    if j >= le {
                        errors.push(LexerError::UnterminatedString {
                            line: line_no,
                            column: start - line_start + 1,
                            span: Span::new(start, le),
                        });
                        i = le;
                    } else {
                        let text = chars_to_string(&chars, start + 2, j);
                        push_token(&mut tokens, Token::new(
                            TokenKind::FString(text),
                            Span::new(start, sat_add(j, 1)),
                        ));
                        i = j + 1;
                    }
                } else {
                    let start = i;
                    i = i + 1;
                    while i < le && (alpha_char(chars[i]) || digit_char(chars[i]) || chars[i] == '_')
                        invariant
                            start < i <= le <= n,
                            n == chars@.len(),
                            forall|k: int| start + 1 <= k < i ==> is_ident_char(chars@[k]),
                        decreases le - i,
                    {
                        i = i + 1;
                    }
                    proof {
                        lemma_ident_run_end_unique(chars@, start as int + 1, le as int, i as int);
                    }
                    let text = chars_to_string(&chars, start, i);
                    let kind = keyword_kind(text);
                    push_token(&mut tokens, Token::new(kind, Span::new(start, i)));
                }
            } else {
                push_err(&mut errors, LexerError::UnexpectedCharacter {
                    ch: c,
                    line: line_no,
                    column: i - line_start + 1,
                    span: Span::new(i, sat_add(i, 1)),
                });
                i = i + 1;
            }
        }
        proof {
            assert(scan_err(chars@, le as int, le as int) == false);
            assert((errors@.len() > errs1) == scan_err(chars@, idx as int, le as int));
        }

        // Every effective line ends with one NEWLINE token: its span sits at
        // the line's terminator.
        proof {
            lemma_line_end_from_props(chars@, ls);
            assert(le as int == n as int || chars@[le as int] == '\n');
        }
        push_token(&mut tokens, Token::new(TokenKind::Newline, Span::new(le, sat_add(le, 1))));
        proof {
            assert(eff_count(chars@, ls)
                == 1 + eff_count(chars@, next_line_start(chars@, ls)));
            assert(lex_errors_from(chars@, ls, entry_stack)
                == (spec_line_tab_error(chars@, ls) || spec_line_mismatch(entry_stack, w)
                    || scan_err(chars@, idx as int, le as int)
                    || lex_errors_from(chars@, next_line_start(chars@, ls),
                        spec_stack_after(entry_stack, w))));
            assert((errors@.len() > errs0)
                == (spec_line_tab_error(chars@, ls) || spec_line_mismatch(entry_stack, w)
                    || scan_err(chars@, idx as int, le as int)));
        }
        line_no = sat_add(line_no, 1);
        line_start = if le < n { le + 1 } else { n };
    }

    proof {
        assert(lex_errors_from(chars@, line_start as int, gstack) == false);
        assert(spec_has_lex_error(chars@) == (errors@.len() > 0));
    }

    // One DEDENT per indent level still open at end of source.
    while indent_stack.len() > 1
        invariant
            indent_stack@.len() >= 1,
            indent_stack@[0] == 0,
            cnt_indent(tokens@) - cnt_dedent(tokens@) == indent_stack@.len() - 1,
            cnt_newline(tokens@) == eff_count(chars@, 0),
            forall|k: int| 0 <= k < tokens@.len() ==> !((#[trigger] tokens@[k]).kind is Eof),
            n == chars@.len(),
            chars@ == source@,
            forall|k: int| 0 <= k < tokens@.len()
                && (#[trigger] tokens@[k]).kind is Newline
                ==> tokens@[k].span.start <= n
                    && (tokens@[k].span.start == n
                        || chars@[tokens@[k].span.start as int] == '\n'),
            well_nested(tokens@),
            spec_has_lex_error(chars@) == (errors@.len() > 0),
        decreases indent_stack@.len(),
    {
        let popped = indent_stack.pop();
        push_token(&mut tokens, Token::new(TokenKind::Dedent, Span::new(n, n)));
    }

    let eof_span = if tokens.len() > 0 {
        let last = &tokens[tokens.len() - 1];
        last.span
    } else {
        Span::new(n, n)
    };
    push_token(&mut tokens, Token::new(TokenKind::Eof, eof_span));

    if errors.len() == 0 {
        Ok(tokens)
    } else {
        Err(errors)
    }
}

} // verus!