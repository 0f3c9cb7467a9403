//! Parsing of a flat token sequence into a batch of alias declarations.
//!
//! The grammar, parsed in strict left-to-right order per declaration:
//!
//! ```text
//! AliasBatch    ::= (AliasDecl ';')*
//! AliasDecl     ::= Attr* Visibility? 'trait' Ident GenericList? '=' BoundList
//! GenericList   ::= '<' (Lifetime | (Ident (':' BoundList)?)) (',' ...)* '>'
//! BoundList     ::= Bound ('+' Bound)*
//! Attr          ::= '#' '[' ... ']'      (only `#[doc = "..."]` is kept)
//! ```
//!
//! Bound expressions are opaque: a bound is the run of tokens up to the
//! next `+`, `,`, `>` or `;` that stands outside every delimited group and
//! angle-bracket nesting. A generic-parameter list followed by a `where`
//! clause is rejected with a fixed semantic-restriction error; every other
//! mismatch is a syntax error carrying the offending token's position.
//! Parsing aborts the whole batch on the first error.
//!
//! The meaning of parsing is fixed by the `sp_*` specification functions,
//! one total function per grammar stage; each executable function is
//! proved to return exactly what its specification stage says, errors
//! included.

use vstd::prelude::*;

verus! {

use vstd::string::StringExecFns;
use crate::token::{Delim, Token, TokenV, toks};
use crate::ast::{Bound, GenericParam, GenericParamV, AliasDecl, AliasDeclV, AliasBatch, bnds, prms, strs, dcls};

/// What went wrong, as a fixed taxonomy of diagnostics.
#[derive(Clone, Copy, PartialEq, Eq, Structural, Debug)]
pub enum ErrKind {
    /// `#` not followed by a bracketed attribute body.
    ExpectedAttrBody,
    /// The input ended inside a delimited group.
    UnclosedGroup,
    /// The `trait` keyword was not where it had to be.
    ExpectedTrait,
    /// An identifier was not where it had to be.
    ExpectedIdent,
    /// A generic-parameter list held something that is no parameter.
    ExpectedGenericParam,
    /// A generic parameter was not followed by `,` or `>`.
    ExpectedGenericSep,
    /// A bound list held an empty bound.
    ExpectedBound,
    /// The assignment token `=` was missing.
    ExpectedEq,
    /// A declaration was not terminated by `;`.
    ExpectedSemicolon,
    /// A closing delimiter with no matching opener.
    UnexpectedClose,
    /// A supplementary `where` clause after the generic-parameter list.
    WhereClauseNotAllowed,
}

/// A parse diagnostic: the index of the offending token and what was
/// expected there. Parsing aborts the whole batch on the first error.
#[derive(Clone, Copy, PartialEq, Eq, Structural, Debug)]
pub struct ParseError {
    pub pos: usize,
    pub kind: ErrKind,
}

/// The diagnostic text of each error kind.
pub open spec fn sp_message(k: ErrKind) -> Seq<char> {
    match k {
        ErrKind::ExpectedAttrBody => "expected a bracketed attribute body"@,
        ErrKind::UnclosedGroup => "unclosed delimiter"@,
        ErrKind::ExpectedTrait => "expected `trait` keyword"@,
        ErrKind::ExpectedIdent => "expected identifier"@,
        ErrKind::ExpectedGenericParam => "expected generic parameter"@,
        ErrKind::ExpectedGenericSep => "expected `,` or `>`"@,
        ErrKind::ExpectedBound => "expected bound"@,
        ErrKind::ExpectedEq => "expected `=`"@,
        ErrKind::ExpectedSemicolon => "expected `;`"@,
        ErrKind::UnexpectedClose => "unexpected closing delimiter"@,
        ErrKind::WhereClauseNotAllowed => "Where clause is not allowed for trait alias"@,
    }
}

impl ParseError {
    /// The human-readable form of this diagnostic.
    pub fn message(&self) -> (r: String)
        ensures
            r@ == sp_message(self.kind),
    {
        match self.kind {
            ErrKind::ExpectedAttrBody => "expected a bracketed attribute body".to_owned(),
            ErrKind::UnclosedGroup => "unclosed delimiter".to_owned(),
            ErrKind::ExpectedTrait => "expected `trait` keyword".to_owned(),
            ErrKind::ExpectedIdent => "expected identifier".to_owned(),
            ErrKind::ExpectedGenericParam => "expected generic parameter".to_owned(),
            ErrKind::ExpectedGenericSep => "expected `,` or `>`".to_owned(),
            ErrKind::ExpectedBound => "expected bound".to_owned(),
            ErrKind::ExpectedEq => "expected `=`".to_owned(),
            ErrKind::ExpectedSemicolon => "expected `;`".to_owned(),
            ErrKind::UnexpectedClose => "unexpected closing delimiter".to_owned(),
            ErrKind::WhereClauseNotAllowed => "Where clause is not allowed for trait alias".to_owned(),
        }
    }
}

/// The outcome of parsing a whole batch, at the specification level.
pub enum SpRes {
    Parsed { batch: Seq<AliasDeclV> },
    Rejected { pos: int, kind: ErrKind },
}

/// Whether a token is an opening delimiter of any kind.
pub open spec fn is_openv(v: TokenV) -> bool {
    match v {
        TokenV::Open(d) => true,
        _ => false,
    }
}

/// Whether a token is a closing delimiter of any kind.
pub open spec fn is_closev(v: TokenV) -> bool {
    match v {
        TokenV::Close(d) => true,
        _ => false,
    }
}

/// The documentation lines from position `j` on, each newline-terminated,
/// concatenated in source order.
pub open spec fn sp_docs_from(lines: Seq<Seq<char>>, j: int) -> Seq<char>
    decreases lines.len() - j,
{
    if j < 0 || j >= lines.len() {
        Seq::empty()
    } else {
        lines[j] + "\n"@ + sp_docs_from(lines, j + 1)
    }
}

/// The accumulated documentation of a declaration: absent when no
/// documentation attribute exists, otherwise every line newline-terminated
/// and joined in source order.
pub open spec fn sp_join_docs(lines: Seq<Seq<char>>) -> Option<Seq<char>> {
    if lines.len() == 0 {
        None
    } else {
        Some(sp_docs_from(lines, 0))
    }
}

/// Assembles one parsed declaration from its gathered pieces.
pub open spec fn sp_mk_decl(
    docs: Seq<Seq<char>>,
    vis: Seq<TokenV>,
    name: Seq<char>,
    generics: Seq<GenericParamV>,
    bounds: Seq<Seq<TokenV>>,
) -> AliasDeclV {
    AliasDeclV { doc: sp_join_docs(docs), vis, name, generics, bounds }
}

/// Stage: at the start of the input, or just after a `;`. An exhausted
/// input here is a complete (possibly empty) batch.
pub open spec fn sp_batch(t: Seq<TokenV>, i: int, acc: Seq<AliasDeclV>) -> SpRes
    decreases t.len() - i, 5int,
{
    if i >= t.len() {
        SpRes::Parsed { batch: acc }
    } else {
        sp_attrs(t, i, acc, Seq::empty())
    }
}

/// Stage: leading attributes. `#[doc = "..."]` contributes its payload;
/// any other bracketed attribute is skipped silently.
pub open spec fn sp_attrs(t: Seq<TokenV>, i: int, acc: Seq<AliasDeclV>, docs: Seq<Seq<char>>) -> SpRes
    decreases t.len() - i, 4int,
{
    if i < t.len() && t[i] == TokenV::Punct("#"@) {
        if i + 1 < t.len() && t[i + 1] == TokenV::Open(Delim::Bracket) {
            if i + 5 < t.len() && t[i + 2] == TokenV::Ident("doc"@) && t[i + 3] == TokenV::Punct(
                "="@,
            ) && (t[i + 4] matches TokenV::LitStr(_)) && t[i + 5] == TokenV::Close(Delim::Bracket) {
                match t[i + 4] {
                    TokenV::LitStr(s) => sp_attrs(t, i + 6, acc, docs.push(s)),
                    _ => SpRes::Rejected { pos: i + 4, kind: ErrKind::ExpectedAttrBody },
                }
            } else {
                sp_skip_attr(t, i + 2, 0, acc, docs)
            }
        } else {
            SpRes::Rejected { pos: i, kind: ErrKind::ExpectedAttrBody }
        }
    } else {
        sp_vis(t, i, acc, docs)
    }
}

/// Stage: inside a non-documentation attribute, scanning for the closing
/// delimiter that matches its opening bracket.
pub open spec fn sp_skip_attr(
    t: Seq<TokenV>,
    i: int,
    depth: nat,
    acc: Seq<AliasDeclV>,
    docs: Seq<Seq<char>>,
) -> SpRes
    decreases t.len() - i, 0int,
{
    if i >= t.len() {
        SpRes::Rejected { pos: i, kind: ErrKind::UnclosedGroup }
    } else if is_openv(t[i]) {
        sp_skip_attr(t, i + 1, depth + 1, acc, docs)
    } else if is_closev(t[i]) {
        if depth == 0 {
            sp_attrs(t, i + 1, acc, docs)
        } else {
            sp_skip_attr(t, i + 1, (depth - 1) as nat, acc, docs)
        }
    } else {
        sp_skip_attr(t, i + 1, depth, acc, docs)
    }
}

/// Stage: the optional visibility specifier. Absence means private; the
/// tokens are passed through unexamined.
pub open spec fn sp_vis(t: Seq<TokenV>, i: int, acc: Seq<AliasDeclV>, docs: Seq<Seq<char>>) -> SpRes
    decreases t.len() - i, 3int,
{
    if i < t.len() && t[i] == TokenV::Ident("pub"@) {
        if i + 1 < t.len() && t[i + 1] == TokenV::Open(Delim::Paren) {
            sp_vis_group(
                t,
                i + 2,
                0,
                acc,
                docs,
                seq![TokenV::Ident("pub"@), TokenV::Open(Delim::Paren)],
            )
        } else {
            sp_kw_trait(t, i + 1, acc, docs, seq![TokenV::Ident("pub"@)])
        }
    } else {
        sp_kw_trait(t, i, acc, docs, Seq::empty())
    }
}

/// Stage: inside the parenthesized part of a visibility specifier such as
/// `pub(crate)`, gathering its tokens up to the matching closer.
pub open spec fn sp_vis_group(
    t: Seq<TokenV>,
    i: int,
    depth: nat,
    acc: Seq<AliasDeclV>,
    docs: Seq<Seq<char>>,
    vis: Seq<TokenV>,
) -> SpRes
    decreases t.len() - i, 0int,
{
    if i >= t.len() {
        SpRes::Rejected { pos: i, kind: ErrKind::UnclosedGroup }
    } else if is_openv(t[i]) {
        sp_vis_group(t, i + 1, depth + 1, acc, docs, vis.push(t[i]))
    } else if is_closev(t[i]) {
        if depth == 0 {
            sp_kw_trait(t, i + 1, acc, docs, vis.push(t[i]))
        } else {
            sp_vis_group(t, i + 1, (depth - 1) as nat, acc, docs, vis.push(t[i]))
        }
    } else {
        sp_vis_group(t, i + 1, depth, acc, docs, vis.push(t[i]))
    }
}

/// Stage: the `trait` keyword followed by the alias's name.
pub open spec fn sp_kw_trait(
    t: Seq<TokenV>,
    i: int,
    acc: Seq<AliasDeclV>,
    docs: Seq<Seq<char>>,
    vis: Seq<TokenV>,
) -> SpRes
    decreases t.len() - i, 2int,
{
    if i < t.len() && t[i] == TokenV::Ident("trait"@) {
        if i + 1 < t.len() && (t[i + 1] matches TokenV::Ident(_)) {
            match t[i + 1] {
                TokenV::Ident(n) => sp_generics_start(t, i + 2, acc, docs, vis, n),
                _ => SpRes::Rejected { pos: i + 1, kind: ErrKind::ExpectedIdent },
            }
        } else {
            SpRes::Rejected { pos: i + 1, kind: ErrKind::ExpectedIdent }
        }
    } else {
        SpRes::Rejected { pos: i, kind: ErrKind::ExpectedTrait }
    }
}

/// Stage: the optional generic-parameter list's opening `<`.
pub open spec fn sp_generics_start(
    t: Seq<TokenV>,
    i: int,
    acc: Seq<AliasDeclV>,
    docs: Seq<Seq<char>>,
    vis: Seq<TokenV>,
    name: Seq<char>,
) -> SpRes
    decreases t.len() - i, 2int,
{
    if i < t.len() && t[i] == TokenV::Punct("<"@) {
        sp_params(t, i + 1, acc, docs, vis, name, Seq::empty())
    } else {
        sp_where_eq(t, i, acc, docs, vis, name, Seq::empty())
    }
}

/// Stage: at the start of one generic parameter, or at the closing `>`.
pub open spec fn sp_params(
    t: Seq<TokenV>,
    i: int,
    acc: Seq<AliasDeclV>,
    docs: Seq<Seq<char>>,
    vis: Seq<TokenV>,
    name: Seq<char>,
    params: Seq<GenericParamV>,
) -> SpRes
    decreases t.len() - i, 0int,
{
    if i >= t.len() {
        SpRes::Rejected { pos: i, kind: ErrKind::ExpectedGenericParam }
    } else if t[i] == TokenV::Punct(">"@) {
        sp_where_eq(t, i + 1, acc, docs, vis, name, params)
    } else {
        match t[i] {
            TokenV::Lifetime(l) => sp_param_sep(
                t,
                i + 1,
                acc,
                docs,
                vis,
                name,
                params.push(GenericParamV::Lifetime(l)),
            ),
            TokenV::Ident(n) => if i + 1 < t.len() && t[i + 1] == TokenV::Punct(":"@) {
                sp_pbounds(
                    t,
                    i + 2,
                    acc,
                    docs,
                    vis,
                    name,
                    params,
                    n,
                    Seq::empty(),
                    Seq::empty(),
                    0,
                    0,
                )
            } else {
                sp_param_sep(
                    t,
                    i + 1,
                    acc,
                    docs,
                    vis,
                    name,
                    params.push(GenericParamV::Type { name: n, bounds: Seq::empty() }),
                )
            },
            _ => SpRes::Rejected { pos: i, kind: ErrKind::ExpectedGenericParam },
        }
    }
}

/// Stage: just after one generic parameter: `,` continues the list, `>`
/// closes it.
pub open spec fn sp_param_sep(
    t: Seq<TokenV>,
    i: int,
    acc: Seq<AliasDeclV>,
    docs: Seq<Seq<char>>,
    vis: Seq<TokenV>,
    name: Seq<char>,
    params: Seq<GenericParamV>,
) -> SpRes
    decreases t.len() - i, 0int,
{
    if i >= t.len() {
        SpRes::Rejected { pos: i, kind: ErrKind::ExpectedGenericSep }
    } else if t[i] == TokenV::Punct(","@) {
        sp_params(t, i + 1, acc, docs, vis, name, params)
    } else if t[i] == TokenV::Punct(">"@) {
        sp_where_eq(t, i + 1, acc, docs, vis, name, params)
    } else {
        SpRes::Rejected { pos: i, kind: ErrKind::ExpectedGenericSep }
    }
}

/// Stage: inside the inline bound list of one type parameter, gathering
/// opaque bound token runs. `+` at the outermost nesting separates bounds;
/// `,` ends the parameter; `>` ends the whole list.
pub open spec fn sp_pbounds(
    t: Seq<TokenV>,
    i: int,
    acc: Seq<AliasDeclV>,
    docs: Seq<Seq<char>>,
    vis: Seq<TokenV>,
    name: Seq<char>,
    params: Seq<GenericParamV>,
    pname: Seq<char>,
    pbounds: Seq<Seq<TokenV>>,
    cur: Seq<TokenV>,
    angle: nat,
    delim: nat,
) -> SpRes
    decreases t.len() - i, 0int,
{
    if i >= t.len() {
        SpRes::Rejected { pos: i, kind: ErrKind::ExpectedGenericSep }
    } else if is_openv(t[i]) {
        sp_pbounds(t, i + 1, acc, docs, vis, name, params, pname, pbounds, cur.push(t[i]), angle, delim + 1)
    } else if is_closev(t[i]) {
        if delim == 0 {
            SpRes::Rejected { pos: i, kind: ErrKind::UnexpectedClose }
        } else {
            sp_pbounds(t, i + 1, acc, docs, vis, name, params, pname, pbounds, cur.push(t[i]), angle, (delim - 1) as nat)
        }
    } else if delim > 0 {
        sp_pbounds(t, i + 1, acc, docs, vis, name, params, pname, pbounds, cur.push(t[i]), angle, delim)
    } else if t[i] == TokenV::Punct("<"@) {
        sp_pbounds(t, i + 1, acc, docs, vis, name, params, pname, pbounds, cur.push(t[i]), angle + 1, 0)
    } else if t[i] == TokenV::Punct(">"@) && angle > 0 {
        sp_pbounds(t, i + 1, acc, docs, vis, name, params, pname, pbounds, cur.push(t[i]), (angle - 1) as nat, 0)
    } else if angle > 0 {
        sp_pbounds(t, i + 1, acc, docs, vis, name, params, pname, pbounds, cur.push(t[i]), angle, 0)
    } else if t[i] == TokenV::Punct("+"@) {
        if cur.len() == 0 {
            SpRes::Rejected { pos: i, kind: ErrKind::ExpectedBound }
        } else {
            sp_pbounds(t, i + 1, acc, docs, vis, name, params, pname, pbounds.push(cur), Seq::empty(), 0, 0)
        }
    } else if t[i] == TokenV::Punct(","@) {
        if cur.len() == 0 {
            SpRes::Rejected { pos: i, kind: ErrKind::ExpectedBound }
        } else {
            sp_params(
                t,
                i + 1,
                acc,
                docs,
                vis,
                name,
                params.push(GenericParamV::Type { name: pname, bounds: pbounds.push(cur) }),
            )
        }
    } else if t[i] == TokenV::Punct(">"@) {
        if cur.len() == 0 {
            SpRes::Rejected { pos: i, kind: ErrKind::ExpectedBound }
        } else {
            sp_where_eq(
                t,
                i + 1,
                acc,
                docs,
                vis,
                name,
                params.push(GenericParamV::Type { name: pname, bounds: pbounds.push(cur) }),
            )
        }
    } else {
        sp_pbounds(t, i + 1, acc, docs, vis, name, params, pname, pbounds, cur.push(t[i]), 0, 0)
    }
}

/// Stage: after the (possibly absent) generic-parameter list. A `where`
/// clause here is the one semantic restriction and is rejected with a
/// fixed diagnostic; otherwise the assignment token `=` must follow.
pub open spec fn sp_where_eq(
    t: Seq<TokenV>,
    i: int,
    acc: Seq<AliasDeclV>,
    docs: Seq<Seq<char>>,
    vis: Seq<TokenV>,
    name: Seq<char>,
    params: Seq<GenericParamV>,
) -> SpRes
    decreases t.len() - i, 1int,
{
    if i < t.len() && t[i] == TokenV::Ident("where"@) {
        SpRes::Rejected { pos: i, kind: ErrKind::WhereClauseNotAllowed }
    } else if i < t.len() && t[i] == TokenV::Punct("="@) {
        sp_bounds(t, i + 1, acc, docs, vis, name, params, Seq::empty(), Seq::empty(), 0, 0)
    } else {
        SpRes::Rejected { pos: i, kind: ErrKind::ExpectedEq }
    }
}

/// Stage: the right-hand-side bound list, gathering opaque bound token
/// runs. `+` at the outermost nesting separates bounds; `;` completes the
/// declaration and returns to the batch stage.
pub open spec fn sp_bounds(
    t: Seq<TokenV>,
    i: int,
    acc: Seq<AliasDeclV>,
    docs: Seq<Seq<char>>,
    vis: Seq<TokenV>,
    name: Seq<char>,
    params: Seq<GenericParamV>,
    bounds: Seq<Seq<TokenV>>,
    cur: Seq<TokenV>,
    angle: nat,
    delim: nat,
) -> SpRes
    decreases t.len() - i, 0int,
{
    if i >= t.len() {
        SpRes::Rejected { pos: i, kind: ErrKind::ExpectedSemicolon }
    } else if is_openv(t[i]) {
        sp_bounds(t, i + 1, acc, docs, vis, name, params, bounds, cur.push(t[i]), angle, delim + 1)
    } else if is_closev(t[i]) {
        if delim == 0 {
            SpRes::Rejected { pos: i, kind: ErrKind::UnexpectedClose }
        } else {
            sp_bounds(t, i + 1, acc, docs, vis, name, params, bounds, cur.push(t[i]), angle, (delim - 1) as nat)
        }
    } else if delim > 0 {
        sp_bounds(t, i + 1, acc, docs, vis, name, params, bounds, cur.push(t[i]), angle, delim)
    } else if t[i] == TokenV::Punct("<"@) {
        sp_bounds(t, i + 1, acc, docs, vis, name, params, bounds, cur.push(t[i]), angle + 1, 0)
    } else if t[i] == TokenV::Punct(">"@) && angle > 0 {
        sp_bounds(t, i + 1, acc, docs, vis, name, params, bounds, cur.push(t[i]), (angle - 1) as nat, 0)
    } else if angle > 0 {
        sp_bounds(t, i + 1, acc, docs, vis, name, params, bounds, cur.push(t[i]), angle, 0)
    } else if t[i] == TokenV::Punct("+"@) {
        if cur.len() == 0 {
            SpRes::Rejected { pos: i, kind: ErrKind::ExpectedBound }
        } else {
            sp_bounds(t, i + 1, acc, docs, vis, name, params, bounds.push(cur), Seq::empty(), 0, 0)
        }
    } else if t[i] == TokenV::Punct(";"@) {
        if cur.len() == 0 {
            SpRes::Rejected { pos: i, kind: ErrKind::ExpectedBound }
        } else {
            sp_batch(t, i + 1, acc.push(sp_mk_decl(docs, vis, name, params, bounds.push(cur))))
        }
    } else {
        sp_bounds(t, i + 1, acc, docs, vis, name, params, bounds, cur.push(t[i]), 0, 0)
    }
}

/// The meaning of parsing a whole token sequence.
pub open spec fn sp_parse(t: Seq<TokenV>) -> SpRes {
    sp_batch(t, 0, Seq::empty())
}

/// Whether an executable parse outcome is exactly a specification outcome.
pub open spec fn res_matches(r: Result<AliasBatch, ParseError>, s: SpRes) -> bool {
    match r {
        Ok(b) => s == (SpRes::Parsed { batch: b@ }),
        Err(e) => s == (SpRes::Rejected { pos: e.pos as int, kind: e.kind }),
    }
}

/// Whether a token equals the punctuation with text `s`.
fn is_punct(tk: &Token, s: &str) -> (r: bool)
    ensures
        r == (tk@ == TokenV::Punct(s@)),
{
    match tk {
        Token::Punct(p) => {
            let q: String = s.to_owned();
            *p == q
        },
        _ => false,
    }
}

/// Whether a token equals the identifier or keyword with text `s`.
fn is_ident(tk: &Token, s: &str) -> (r: bool)
    ensures
        r == (tk@ == TokenV::Ident(s@)),
{
    match tk {
        Token::Ident(p) => {
            let q: String = s.to_owned();
            *p == q
        },
        _ => false,
    }
}

/// Whether a token is the opening delimiter of kind `d`.
fn is_open(tk: &Token, d: Delim) -> (r: bool)
    ensures
        r == (tk@ == TokenV::Open(d)),
{
    match tk {
        Token::Open(x) => *x == d,
        _ => false,
    }
}

/// Whether a token is the closing delimiter of kind `d`.
fn is_close(tk: &Token, d: Delim) -> (r: bool)
    ensures
        r == (tk@ == TokenV::Close(d)),
{
    match tk {
        Token::Close(x) => *x == d,
        _ => false,
    }
}

/// Whether a token is an opening delimiter of any kind.
fn is_any_open(tk: &Token) -> (r: bool)
    ensures
        r == is_openv(tk@),
{
    match tk {
        Token::Open(x) => true,
        _ => false,
    }
}

/// Whether a token is a closing delimiter of any kind.
fn is_any_close(tk: &Token) -> (r: bool)
    ensures
        r == is_closev(tk@),
{
    match tk {
        Token::Close(x) => true,
        _ => false,
    }
}

/// Appends the documentation lines from position `j` on, each
/// newline-terminated, to `out`.
fn append_doc_lines(out: &mut String, lines: &Vec<String>, j: usize)
    requires
        j <= lines@.len(),
    ensures
        final(out)@ == old(out)@ + sp_docs_from(strs(lines@), j as int),
    decreases lines@.len() - j,
{
    if j < lines.len() {
        out.append(lines[j].as_str());
        out.append("\n");
        append_doc_lines(out, lines, j + 1);
        proof {
            assert(strs(lines@)[j as int] == lines@[j as int]@);
            assert(old(out)@ + sp_docs_from(strs(lines@), j as int) =~= ((old(out)@
                + lines@[j as int]@) + "\n"@) + sp_docs_from(strs(lines@), j as int + 1));
        }
    } else {
        proof {
            assert(old(out)@ + sp_docs_from(strs(lines@), j as int) =~= old(out)@);
        }
    }
}

/// Joins gathered documentation lines into the declaration's
/// documentation text: absent when no documentation attribute exists,
/// otherwise every line newline-terminated, in source order.
pub fn join_doc_lines(lines: &Vec<String>) -> (r: Option<String>)
    ensures
        (match r {
            Some(s) => Some(s@),
            None => None,
        }) == sp_join_docs(strs(lines@)),
{
    if lines.len() == 0 {
        None
    } else {
        let mut out = String::new();
        append_doc_lines(&mut out, lines, 0);
        Some(out)
    }
}

/// Assembles one parsed declaration from its gathered pieces.
fn mk_decl(
    docs: Vec<String>,
    vis: Vec<Token>,
    name: String,
    generics: Vec<GenericParam>,
    bounds: Vec<Bound>,
) -> (d: AliasDecl)
    ensures
        d@ == sp_mk_decl(strs(docs@), toks(vis@), name@, prms(generics@), bnds(bounds@)),
{
    let doc = join_doc_lines(&docs);
    AliasDecl { doc, vis, name, generics, bounds }
}

/// Stage: at the start of the input, or just after a `;`.
fn p_batch(t: &Vec<Token>, i: usize, acc: Vec<AliasDecl>) -> (r: Result<AliasBatch, ParseError>)
    requires
        i <= t@.len(),
    ensures
        res_matches(r, sp_batch(toks(t@), i as int, dcls(acc@))),
    decreases t@.len() - i, 5int,
{
    if i >= t.len() {
        Ok(AliasBatch { decls: acc })
    } else {
        let docs: Vec<String> = Vec::new();
        proof {
            assert(strs(docs@) =~= Seq::<Seq<char>>::empty());
        }
        p_attrs(t, i, acc, docs)
    }
}

/// Stage: leading attributes.
fn p_attrs(t: &Vec<Token>, i: usize, acc: Vec<AliasDecl>, docs: Vec<String>) -> (r: Result<
    AliasBatch,
    ParseError,
>)
    requires
        i <= t@.len(),
    ensures
        res_matches(r, sp_attrs(toks(t@), i as int, dcls(acc@), strs(docs@))),
    decreases t@.len() - i, 4int,
{
    if i < t.len() && is_punct(&t[i], "#") {
        if i + 1 < t.len() && is_open(&t[i + 1], Delim::Bracket) {
            if t.len() - i > 5 && is_ident(&t[i + 2], "doc") && is_punct(&t[i + 3], "=")
                && is_close(&t[i + 5], Delim::Bracket) {
                let ghost docs_v = strs(docs@);
                match &t[i + 4] {
                    Token::LitStr(s) => {
                        let mut docs2 = docs;
                        docs2.push(s.clone());
                        proof {
                            assert(toks(t@)[i + 4] == t@[i + 4]@);
                            assert(strs(docs2@) =~= docs_v.push(s@));
                        }
                        return p_attrs(t, i + 6, acc, docs2);
                    },
                    _ => {
                        return p_skip_attr(t, i + 2, 0, acc, docs);
                    },
                }
            }
            p_skip_attr(t, i + 2, 0, acc, docs)
        } else {
            Err(ParseError { pos: i, kind: ErrKind::ExpectedAttrBody })
        }
    } else {
        p_vis(t, i, acc, docs)
    }
}

/// Stage: inside a non-documentation attribute.
fn p_skip_attr(t: &Vec<Token>, i: usize, depth: usize, acc: Vec<AliasDecl>, docs: Vec<String>) -> (r:
    Result<AliasBatch, ParseError>)
    requires
        i <= t@.len(),
        depth <= i,
    ensures
        res_matches(r, sp_skip_attr(toks(t@), i as int, depth as nat, dcls(acc@), strs(docs@))),
    decreases t@.len() - i, 0int,
{
    if i >= t.len() {
        Err(ParseError { pos: i, kind: ErrKind::UnclosedGroup })
    } else if is_any_open(&t[i]) {
        p_skip_attr(t, i + 1, depth + 1, acc, docs)
    } else if is_any_close(&t[i]) {
        if depth == 0 {
            p_attrs(t, i + 1, acc, docs)
        } else {
            p_skip_attr(t, i + 1, depth - 1, acc, docs)
        }
    } else {
        p_skip_attr(t, i + 1, depth, acc, docs)
    }
}

/// Stage: the optional visibility specifier.
fn p_vis(t: &Vec<Token>, i: usize, acc: Vec<AliasDecl>, docs: Vec<String>) -> (r: Result<
    AliasBatch,
    ParseError,
>)
    requires
        i <= t@.len(),
    ensures
        res_matches(r, sp_vis(toks(t@), i as int, dcls(acc@), strs(docs@))),
    decreases t@.len() - i, 3int,
{
    if i < t.len() && is_ident(&t[i], "pub") {
        if i + 1 < t.len() && is_open(&t[i + 1], Delim::Paren) {
            let mut vis: Vec<Token> = Vec::new();
            vis.push(Token::Ident("pub".to_owned()));
            vis.push(Token::Open(Delim::Paren));
            proof {
                assert(toks(vis@) =~= seq![TokenV::Ident("pub"@), TokenV::Open(Delim::Paren)]);
            }
            p_vis_group(t, i + 2, 0, acc, docs, vis)
        } else {
            let mut vis: Vec<Token> = Vec::new();
            vis.push(Token::Ident("pub".to_owned()));
            proof {
                assert(toks(vis@) =~= seq![TokenV::Ident("pub"@)]);
            }
            p_kw_trait(t, i + 1, acc, docs, vis)
        }
    } else {
        let vis: Vec<Token> = Vec::new();
        proof {
            assert(toks(vis@) =~= Seq::<TokenV>::empty());
        }
        p_kw_trait(t, i, acc, docs, vis)
    }
}

/// Stage: inside the parenthesized part of a visibility specifier.
fn p_vis_group(
    t: &Vec<Token>,
    i: usize,
    depth: usize,
    acc: Vec<AliasDecl>,
    docs: Vec<String>,
    vis: Vec<Token>,
) -> (r: Result<AliasBatch, ParseError>)
    requires
        i <= t@.len(),
        depth <= i,
    ensures
        res_matches(
            r,
            sp_vis_group(toks(t@), i as int, depth as nat, dcls(acc@), strs(docs@), toks(vis@)),
        ),
    decreases t@.len() - i, 0int,
{
    if i >= t.len() {
        Err(ParseError { pos: i, kind: ErrKind::UnclosedGroup })
    } else {
        let ghost vis_v = toks(vis@);
        let mut vis2 = vis;
        vis2.push(t[i].clone());
        proof {
            assert(toks(vis2@) =~= vis_v.push(toks(t@)[i as int]));
        }
        if is_any_open(&t[i]) {
            p_vis_group(t, i + 1, depth + 1, acc, docs, vis2)
        } else if is_any_close(&t[i]) {
            if depth == 0 {
                p_kw_trait(t, i + 1, acc, docs, vis2)
            } else {
                p_vis_group(t, i + 1, depth - 1, acc, docs, vis2)
            }
        } else {
            p_vis_group(t, i + 1, depth, acc, docs, vis2)
        }
    }
}

/// Stage: the `trait` keyword followed by the alias's name.
fn p_kw_trait(t: &Vec<Token>, i: usize, acc: Vec<AliasDecl>, docs: Vec<String>, vis: Vec<Token>) -> (r:
    Result<AliasBatch, ParseError>)
    requires
        i <= t@.len(),
    ensures
        res_matches(r, sp_kw_trait(toks(t@), i as int, dcls(acc@), strs(docs@), toks(vis@))),
    decreases t@.len() - i, 2int,
{
    if i < t.len() && is_ident(&t[i], "trait") {
        if i + 1 < t.len() {
            match &t[i + 1] {
                Token::Ident(n) => {
                    proof {
                        assert(toks(t@)[i + 1] == t@[i + 1]@);
                    }
                    return p_generics_start(t, i + 2, acc, docs, vis, n.clone());
                },
                _ => {},
            }
        }
        Err(ParseError { pos: i + 1, kind: ErrKind::ExpectedIdent })
    } else {
        Err(ParseError { pos: i, kind: ErrKind::ExpectedTrait })
    }
}

/// Stage: the optional generic-parameter list's opening `<`.
fn p_generics_start(
    t: &Vec<Token>,
    i: usize,
    acc: Vec<AliasDecl>,
    docs: Vec<String>,
    vis: Vec<Token>,
    name: String,
) -> (r: Result<AliasBatch, ParseError>)
    requires
        i <= t@.len(),
    ensures
        res_matches(
            r,
            sp_generics_start(toks(t@), i as int, dcls(acc@), strs(docs@), toks(vis@), name@),
        ),
    decreases t@.len() - i, 2int,
{
    let params: Vec<GenericParam> = Vec::new();
    proof {
        assert(prms(params@) =~= Seq::<GenericParamV>::empty());
    }
    if i < t.len() && is_punct(&t[i], "<") {
        p_params(t, i + 1, acc, docs, vis, name, params)
    } else {
        p_where_eq(t, i, acc, docs, vis, name, params)
    }
}

/// Stage: at the start of one generic parameter, or at the closing `>`.
fn p_params(
    t: &Vec<Token>,
    i: usize,
    acc: Vec<AliasDecl>,
    docs: Vec<String>,
    vis: Vec<Token>,
    name: String,
    params: Vec<GenericParam>,
) -> (r: Result<AliasBatch, ParseError>)
    requires
        i <= t@.len(),
    ensures
        res_matches(
            r,
            sp_params(
                toks(t@),
                i as int,
                dcls(acc@),
                strs(docs@),
                toks(vis@),
                name@,
                prms(params@),
            ),
        ),
    decreases t@.len() - i, 0int,
{
    if i >= t.len() {
        Err(ParseError { pos: i, kind: ErrKind::ExpectedGenericParam })
    } else if is_punct(&t[i], ">") {
        p_where_eq(t, i + 1, acc, docs, vis, name, params)
    } else {
        let ghost params_v = prms(params@);
        match &t[i] {
            Token::Lifetime(l) => {
                proof {
                    assert(toks(t@)[i as int] == t@[i as int]@);
                }
                let mut params2 = params;
                params2.push(GenericParam::Lifetime(l.clone()));
                proof {
                    assert(prms(params2@) =~= params_v.push(GenericParamV::Lifetime(l@)));
                }
                p_param_sep(t, i + 1, acc, docs, vis, name, params2)
            },
            Token::Ident(n) => {
                proof {
                    assert(toks(t@)[i as int] == t@[i as int]@);
                }
                if i + 1 < t.len() && is_punct(&t[i + 1], ":") {
                    let pbounds: Vec<Bound> = Vec::new();
                    let cur: Vec<Token> = Vec::new();
                    proof {
                        assert(bnds(pbounds@) =~= Seq::<Seq<TokenV>>::empty());
                        assert(toks(cur@) =~= Seq::<TokenV>::empty());
                    }
                    p_pbounds(t, i + 2, acc, docs, vis, name, params, n.clone(), pbounds, cur, 0, 0)
                } else {
                    let mut params2 = params;
                    params2.push(GenericParam::Type { name: n.clone(), bounds: Vec::new() });
                    proof {
                        assert(bnds(Seq::<Bound>::empty()) =~= Seq::<Seq<TokenV>>::empty());
                        assert(prms(params2@) =~= params_v.push(
                            (GenericParamV::Type { name: n@, bounds: Seq::empty() }),
                        ));
                    }
                    p_param_sep(t, i + 1, acc, docs, vis, name, params2)
                }
            },
            _ => Err(ParseError { pos: i, kind: ErrKind::ExpectedGenericParam }),
        }
    }
}

/// Stage: just after one generic parameter.
fn p_param_sep(
    t: &Vec<Token>,
    i: usize,
    acc: Vec<AliasDecl>,
    docs: Vec<String>,
    vis: Vec<Token>,
    name: String,
    params: Vec<GenericParam>,
) -> (r: Result<AliasBatch, ParseError>)
    requires
        i <= t@.len(),
    ensures
        res_matches(
            r,
            sp_param_sep(
                toks(t@),
                i as int,
                dcls(acc@),
                strs(docs@),
                toks(vis@),
                name@,
                prms(params@),
            ),
        ),
    decreases t@.len() - i, 0int,
{
    if i >= t.len() {
        Err(ParseError { pos: i, kind: ErrKind::ExpectedGenericSep })
    } else if is_punct(&t[i], ",") {
        p_params(t, i + 1, acc, docs, vis, name, params)
    } else if is_punct(&t[i], ">") {
        p_where_eq(t, i + 1, acc, docs, vis, name, params)
    } else {
        Err(ParseError { pos: i, kind: ErrKind::ExpectedGenericSep })
    }
}

/// Stage: inside the inline bound list of one type parameter.
fn p_pbounds(
    t: &Vec<Token>,
    i: usize,
    acc: Vec<AliasDecl>,
    docs: Vec<String>,
    vis: Vec<Token>,
    name: String,
    params: Vec<GenericParam>,
    pname: String,
    pbounds: Vec<Bound>,
    cur: Vec<Token>,
    angle: usize,
    delim: usize,
) -> (r: Result<AliasBatch, ParseError>)
    requires
        i <= t@.len(),
        angle <= i,
        delim <= i,
    ensures
        res_matches(
            r,
            sp_pbounds(
                toks(t@),
                i as int,
                dcls(acc@),
                strs(docs@),
                toks(vis@),
                name@,
                prms(params@),
                pname@,
                bnds(pbounds@),
                toks(cur@),
                angle as nat,
                delim as nat,
            ),
        ),
    decreases t@.len() - i, 0int,
{
    if i >= t.len() {
        return Err(ParseError { pos: i, kind: ErrKind::ExpectedGenericSep });
    }
    let ghost cur_v = toks(cur@);
    let ghost pb_v = bnds(pbounds@);
    let ghost ps_v = prms(params@);
    proof {
        assert(toks(t@)[i as int] == t@[i as int]@);
    }
    if is_any_open(&t[i]) {
        let mut cur2 = cur;
        cur2.push(t[i].clone());
        proof {
            assert(toks(cur2@) =~= cur_v.push(toks(t@)[i as int]));
        }
        p_pbounds(t, i + 1, acc, docs, vis, name, params, pname, pbounds, cur2, angle, delim + 1)
    } else if is_any_close(&t[i]) {
        if delim == 0 {
            Err(ParseError { pos: i, kind: ErrKind::UnexpectedClose })
        } else {
            let mut cur2 = cur;
            cur2.push(t[i].clone());
            proof {
                assert(toks(cur2@) =~= cur_v.push(toks(t@)[i as int]));
            }
            p_pbounds(t, i + 1, acc, docs, vis, name, params, pname, pbounds, cur2, angle, delim - 1)
        }
    } else if delim > 0 {
        let mut cur2 = cur;
        cur2.push(t[i].clone());
        proof {
            assert(toks(cur2@) =~= cur_v.push(toks(t@)[i as int]));
        }
        p_pbounds(t, i + 1, acc, docs, vis, name, params, pname, pbounds, cur2, angle, delim)
    } else if is_punct(&t[i], "<") {
        let mut cur2 = cur;
        cur2.push(t[i].clone());
        proof {
            assert(toks(cur2@) =~= cur_v.push(toks(t@)[i as int]));
        }
        p_pbounds(t, i + 1, acc, docs, vis, name, params, pname, pbounds, cur2, angle + 1, 0)
    } else if is_punct(&t[i], ">") && angle > 0 {
        let mut cur2 = cur;
        cur2.push(t[i].clone());
        proof {
            assert(toks(cur2@) =~= cur_v.push(toks(t@)[i as int]));
        }
        p_pbounds(t, i + 1, acc, docs, vis, name, params, pname, pbounds, cur2, angle - 1, 0)
    } else if angle > 0 {
        let mut cur2 = cur;
        cur2.push(t[i].clone());
        proof {
            assert(toks(cur2@) =~= cur_v.push(toks(t@)[i as int]));
        }
        p_pbounds(t, i + 1, acc, docs, vis, name, params, pname, pbounds, cur2, angle, 0)
    } else if is_punct(&t[i], "+") {
        if cur.len() == 0 {
            Err(ParseError { pos: i, kind: ErrKind::ExpectedBound })
        } else {
            let mut pbounds2 = pbounds;
            pbounds2.push(Bound { tokens: cur });
            proof {
                assert(bnds(pbounds2@) =~= pb_v.push(cur_v));
            }
            let cur2: Vec<Token> = Vec::new();
            proof {
                assert(toks(cur2@) =~= Seq::<TokenV>::empty());
            }
            p_pbounds(t, i + 1, acc, docs, vis, name, params, pname, pbounds2, cur2, 0, 0)
        }
    } else if is_punct(&t[i], ",") {
        if cur.len() == 0 {
            Err(ParseError { pos: i, kind: ErrKind::ExpectedBound })
        } else {
            let ghost pname_v = pname@;
            let mut pbounds2 = pbounds;
            pbounds2.push(Bound { tokens: cur });
            proof {
                assert(bnds(pbounds2@) =~= pb_v.push(cur_v));
            }
            let mut params2 = params;
            params2.push(GenericParam::Type { name: pname, bounds: pbounds2 });
            proof {
                assert(prms(params2@) =~= ps_v.push(
                    (GenericParamV::Type { name: pname_v, bounds: pb_v.push(cur_v) }),
                ));
            }
            p_params(t, i + 1, acc, docs, vis, name, params2)
        }
    } else if is_punct(&t[i], ">") {
        if cur.len() == 0 {
            Err(ParseError { pos: i, kind: ErrKind::ExpectedBound })
        } else {
            let ghost pname_v = pname@;
            let mut pbounds2 = pbounds;
            pbounds2.push(Bound { tokens: cur });
            proof {
                assert(bnds(pbounds2@) =~= pb_v.push(cur_v));
            }
            let mut params2 = params;
            params2.push(GenericParam::Type { name: pname, bounds: pbounds2 });
            proof {
                assert(prms(params2@) =~= ps_v.push(
                    (GenericParamV::Type { name: pname_v, bounds: pb_v.push(cur_v) }),
                ));
            }
            p_where_eq(t, i + 1, acc, docs, vis, name, params2)
        }
    } else {
        let mut cur2 = cur;
        cur2.push(t[i].clone());
        proof {
            assert(toks(cur2@) =~= cur_v.push(toks(t@)[i as int]));
        }
        p_pbounds(t, i + 1, acc, docs, vis, name, params, pname, pbounds, cur2, 0, 0)
    }
}

/// Stage: after the (possibly absent) generic-parameter list.
fn p_where_eq(
    t: &Vec<Token>,
    i: usize,
    acc: Vec<AliasDecl>,
    docs: Vec<String>,
    vis: Vec<Token>,
    name: String,
    params: Vec<GenericParam>,
) -> (r: Result<AliasBatch, ParseError>)
    requires
        i <= t@.len(),
    ensures
        res_matches(
            r,
            sp_where_eq(
                toks(t@),
                i as int,
                dcls(acc@),
                strs(docs@),
                toks(vis@),
                name@,
                prms(params@),
            ),
        ),
    decreases t@.len() - i, 1int,
{
    if i < t.len() && is_ident(&t[i], "where") {
        Err(ParseError { pos: i, kind: ErrKind::WhereClauseNotAllowed })
    } else if i < t.len() && is_punct(&t[i], "=") {
        let bounds: Vec<Bound> = Vec::new();
        let cur: Vec<Token> = Vec::new();
        proof {
            assert(bnds(bounds@) =~= Seq::<Seq<TokenV>>::empty());
            assert(toks(cur@) =~= Seq::<TokenV>::empty());
        }
        p_bounds(t, i + 1, acc, docs, vis, name, params, bounds, cur, 0, 0)
    } else {
        Err(ParseError { pos: i, kind: ErrKind::ExpectedEq })
    }
}

/// Stage: the right-hand-side bound list.
fn p_bounds(
    t: &Vec<Token>,
    i: usize,
    acc: Vec<AliasDecl>,
    docs: Vec<String>,
    vis: Vec<Token>,
    name: String,
    params: Vec<GenericParam>,
    bounds: Vec<Bound>,
    cur: Vec<Token>,
    angle: usize,
    delim: usize,
) -> (r: Result<AliasBatch, ParseError>)
    requires
        i <= t@.len(),
        angle <= i,
        delim <= i,
    ensures
        res_matches(
            r,
            sp_bounds(
                toks(t@),
                i as int,
                dcls(acc@),
                strs(docs@),
                toks(vis@),
                name@,
                prms(params@),
                bnds(bounds@),
                toks(cur@),
                angle as nat,
                delim as nat,
            ),
        ),
    decreases t@.len() - i, 0int,
{
    if i >= t.len() {
        return Err(ParseError { pos: i, kind: ErrKind::ExpectedSemicolon });
    }
    let ghost cur_v = toks(cur@);
    let ghost bs_v = bnds(bounds@);
    let ghost acc_v = dcls(acc@);
    proof {
        assert(toks(t@)[i as int] == t@[i as int]@);
    }
    if is_any_open(&t[i]) {
        let mut cur2 = cur;
        cur2.push(t[i].clone());
        proof {
            assert(toks(cur2@) =~= cur_v.push(toks(t@)[i as int]));
        }
        p_bounds(t, i + 1, acc, docs, vis, name, params, bounds, cur2, angle, delim + 1)
    } else if is_any_close(&t[i]) {
        if delim == 0 {
            Err(ParseError { pos: i, kind: ErrKind::UnexpectedClose })
        } else {
            let mut cur2 = cur;
            cur2.push(t[i].clone());
            proof {
                assert(toks(cur2@) =~= cur_v.push(toks(t@)[i as int]));
            }
            p_bounds(t, i + 1, acc, docs, vis, name, params, bounds, cur2, angle, delim - 1)
        }
    } else if delim > 0 {
        let mut cur2 = cur;
        cur2.push(t[i].clone());
        proof {
            assert(toks(cur2@) =~= cur_v.push(toks(t@)[i as int]));
        }
        p_bounds(t, i + 1, acc, docs, vis, name, params, bounds, cur2, angle, delim)
    } else if is_punct(&t[i], "<") {
        let mut cur2 = cur;
        cur2.push(t[i].clone());
        proof {
            assert(toks(cur2@) =~= cur_v.push(toks(t@)[i as int]));
        }
        p_bounds(t, i + 1, acc, docs, vis, name, params, bounds, cur2, angle + 1, 0)
    } else if is_punct(&t[i], ">") && angle > 0 {
        let mut cur2 = cur;
        cur2.push(t[i].clone());
        proof {
            assert(toks(cur2@) =~= cur_v.push(toks(t@)[i as int]));
        }
        p_bounds(t, i + 1, acc, docs, vis, name, params, bounds, cur2, angle - 1, 0)
    } else if angle > 0 {
        let mut cur2 = cur;
        cur2.push(t[i].clone());
        proof {
            assert(toks(cur2@) =~= cur_v.push(toks(t@)[i as int]));
        }
        p_bounds(t, i + 1, acc, docs, vis, name, params, bounds, cur2, angle, 0)
    } else if is_punct(&t[i], "+") {
        if cur.len() == 0 {
            Err(ParseError { pos: i, kind: ErrKind::ExpectedBound })
        } else {
            let mut bounds2 = bounds;
            bounds2.push(Bound { tokens: cur });
            proof {
                assert(bnds(bounds2@) =~= bs_v.push(cur_v));
            }
            let cur2: Vec<Token> = Vec::new();
            proof {
                assert(toks(cur2@) =~= Seq::<TokenV>::empty());
            }
            p_bounds(t, i + 1, acc, docs, vis, name, params, bounds2, cur2, 0, 0)
        }
    } else if is_punct(&t[i], ";") {
        if cur.len() == 0 {
            Err(ParseError { pos: i, kind: ErrKind::ExpectedBound })
        } else {
            let ghost docs_v = strs(docs@);
            let ghost vis_v = toks(vis@);
            let ghost name_v = name@;
            let ghost ps_v = prms(params@);
            let mut bounds2 = bounds;
            bounds2.push(Bound { tokens: cur });
            proof {
                assert(bnds(bounds2@) =~= bs_v.push(cur_v));
            }
            let d = mk_decl(docs, vis, name, params, bounds2);
            let ghost d_v = d@;
            let mut acc2 = acc;
            acc2.push(d);
            proof {
                assert(dcls(acc2@) =~= acc_v.push(d_v));
            }
            p_batch(t, i + 1, acc2)
        }
    } else {
        let mut cur2 = cur;
        cur2.push(t[i].clone());
        proof {
            assert(toks(cur2@) =~= cur_v.push(toks(t@)[i as int]));
        }
        p_bounds(t, i + 1, acc, docs, vis, name, params, bounds, cur2, 0, 0)
    }
}

/// Parses a whole token sequence into a batch of alias declarations, or
/// the first diagnostic. The outcome is exactly what [`sp_parse`] says of
/// the input, success and error alike.
pub fn parse(tokens: &Vec<Token>) -> (r: Result<AliasBatch, ParseError>)
    ensures
        res_matches(r, sp_parse(toks(tokens@))),
        (r matches Ok(b) ==> crate::ast::all_wf(b@)),
{
    let acc: Vec<AliasDecl> = Vec::new();
    proof {
        assert(dcls(acc@) =~= Seq::<AliasDeclV>::empty());
        crate::laws::lemma_parse_wf(toks(tokens@));
    }
    p_batch(tokens, 0, acc)
}

} // verus!
