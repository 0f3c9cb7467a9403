//! Synthesis of output syntax from parsed alias declarations.
//!
//! For every declaration the synthesizer emits a trait definition whose
//! supertraits are the alias's bounds, followed by a blanket implementation
//! of that trait for a fresh, universally quantified type parameter
//! `_INNER` bounded by the same bounds. Rendering is total: all validation
//! happened at parse time.
//!
//! The generic branch renders the same parameter list twice: once with
//! inline bounds retained (the implementation's own parameter list) and
//! once with every inline bound stripped (the trait-argument position),
//! where repeating a bound would be ill-formed in the output grammar.

use vstd::prelude::*;

verus! {

use crate::token::{Delim, Token, TokenV, toks, lemma_toks_add};
use crate::ast::{Bound, GenericParam, GenericParamV, AliasDecl, AliasDeclV, AliasBatch, bnds, prms, dcls};

/// The documentation attribute carrying the accumulated doc text.
pub open spec fn sp_doc_attr(doc: Seq<char>) -> Seq<TokenV> {
    seq![
        TokenV::Punct("#"@),
        TokenV::Open(Delim::Bracket),
        TokenV::Ident("doc"@),
        TokenV::Punct("="@),
        TokenV::LitStr(doc),
        TokenV::Close(Delim::Bracket),
    ]
}

/// The documentation tokens of a declaration: one attribute, or nothing.
pub open spec fn sp_doc_toks(doc: Option<Seq<char>>) -> Seq<TokenV> {
    match doc {
        Some(d) => sp_doc_attr(d),
        None => Seq::empty(),
    }
}

/// The bounds from position `j` on, joined by `+` (a `+` precedes every
/// bound but the first of the whole list).
pub open spec fn sp_bounds_from(bs: Seq<Seq<TokenV>>, j: int) -> Seq<TokenV>
    decreases bs.len() - j,
{
    if j < 0 || j >= bs.len() {
        Seq::empty()
    } else {
        (if j > 0 {
            seq![TokenV::Punct("+"@)]
        } else {
            Seq::empty()
        }) + bs[j] + sp_bounds_from(bs, j + 1)
    }
}

/// A bound list in declaration order, joined by `+`.
pub open spec fn sp_bounds_toks(bs: Seq<Seq<TokenV>>) -> Seq<TokenV> {
    sp_bounds_from(bs, 0)
}

/// One generic parameter with its inline bounds retained.
pub open spec fn sp_param_full(p: GenericParamV) -> Seq<TokenV> {
    match p {
        GenericParamV::Lifetime(l) => seq![TokenV::Lifetime(l)],
        GenericParamV::Type { name, bounds } => seq![TokenV::Ident(name)] + (if bounds.len() > 0 {
            seq![TokenV::Punct(":"@)] + sp_bounds_toks(bounds)
        } else {
            Seq::empty()
        }),
    }
}

/// One generic parameter with every inline bound stripped: only its name
/// survives, so order and identity are untouched.
pub open spec fn sp_param_stripped(p: GenericParamV) -> Seq<TokenV> {
    match p {
        GenericParamV::Lifetime(l) => seq![TokenV::Lifetime(l)],
        GenericParamV::Type { name, bounds } => seq![TokenV::Ident(name)],
    }
}

/// The parameters from position `j` on, comma-joined; bound-carrying or
/// bound-stripped according to `stripped`.
pub open spec fn sp_params_from(ps: Seq<GenericParamV>, j: int, stripped: bool) -> Seq<TokenV>
    decreases ps.len() - j,
{
    if j < 0 || j >= ps.len() {
        Seq::empty()
    } else {
        (if j > 0 {
            seq![TokenV::Punct(","@)]
        } else {
            Seq::empty()
        }) + (if stripped {
            sp_param_stripped(ps[j])
        } else {
            sp_param_full(ps[j])
        }) + sp_params_from(ps, j + 1, stripped)
    }
}

/// A parameter list in declaration order, comma-joined.
pub open spec fn sp_params_toks(ps: Seq<GenericParamV>, stripped: bool) -> Seq<TokenV> {
    sp_params_from(ps, 0, stripped)
}

/// Output form of a declaration without generic parameters:
///
/// ```text
/// #[doc = "..."]? vis trait Name: B1 + ... + Bn {}
/// impl<_INNER> Name for _INNER where _INNER: B1 + ... + Bn {}
/// ```
pub open spec fn sp_render_non_generic(d: AliasDeclV) -> Seq<TokenV> {
    sp_doc_toks(d.doc) + d.vis + seq![
        TokenV::Ident("trait"@),
        TokenV::Ident(d.name),
        TokenV::Punct(":"@),
    ] + sp_bounds_toks(d.bounds) + seq![
        TokenV::Open(Delim::Brace),
        TokenV::Close(Delim::Brace),
        TokenV::Ident("impl"@),
        TokenV::Punct("<"@),
        TokenV::Ident("_INNER"@),
        TokenV::Punct(">"@),
        TokenV::Ident(d.name),
        TokenV::Ident("for"@),
        TokenV::Ident("_INNER"@),
        TokenV::Ident("where"@),
        TokenV::Ident("_INNER"@),
        TokenV::Punct(":"@),
    ] + sp_bounds_toks(d.bounds) + seq![
        TokenV::Open(Delim::Brace),
        TokenV::Close(Delim::Brace),
    ]
}

/// Output form of a declaration with generic parameters: the trait header
/// carries the full parameters, the blanket implementation declares the
/// full parameters plus `_INNER` appended after all of them (so lifetimes
/// stay in front), and the trait-argument position repeats the parameters
/// with every inline bound stripped:
///
/// ```text
/// #[doc = "..."]? vis trait Name<P1, ..., Pk>: B1 + ... + Bn {}
/// impl<P1, ..., Pk, _INNER> Name<P1', ..., Pk'> for _INNER
///     where _INNER: B1 + ... + Bn {}
/// ```
pub open spec fn sp_render_generic(d: AliasDeclV) -> Seq<TokenV> {
    sp_doc_toks(d.doc) + d.vis + seq![
        TokenV::Ident("trait"@),
        TokenV::Ident(d.name),
        TokenV::Punct("<"@),
    ] + sp_params_toks(d.generics, false) + seq![
        TokenV::Punct(">"@),
        TokenV::Punct(":"@),
    ] + sp_bounds_toks(d.bounds) + seq![
        TokenV::Open(Delim::Brace),
        TokenV::Close(Delim::Brace),
        TokenV::Ident("impl"@),
        TokenV::Punct("<"@),
    ] + sp_params_toks(d.generics, false) + seq![
        TokenV::Punct(","@),
        TokenV::Ident("_INNER"@),
        TokenV::Punct(">"@),
        TokenV::Ident(d.name),
        TokenV::Punct("<"@),
    ] + sp_params_toks(d.generics, true) + seq![
        TokenV::Punct(">"@),
        TokenV::Ident("for"@),
        TokenV::Ident("_INNER"@),
        TokenV::Ident("where"@),
        TokenV::Ident("_INNER"@),
        TokenV::Punct(":"@),
    ] + sp_bounds_toks(d.bounds) + seq![
        TokenV::Open(Delim::Brace),
        TokenV::Close(Delim::Brace),
    ]
}

/// Output form of one declaration; the branch is selected solely by
/// whether the declaration has generic parameters.
pub open spec fn sp_render_decl(d: AliasDeclV) -> Seq<TokenV> {
    if d.generics.len() == 0 {
        sp_render_non_generic(d)
    } else {
        sp_render_generic(d)
    }
}

/// Output of the declarations from position `j` on, concatenated in
/// declaration order with no separators.
pub open spec fn sp_render_from(ds: Seq<AliasDeclV>, j: int) -> Seq<TokenV>
    decreases ds.len() - j,
{
    if j < 0 || j >= ds.len() {
        Seq::empty()
    } else {
        sp_render_decl(ds[j]) + sp_render_from(ds, j + 1)
    }
}

/// Output of a whole batch: each declaration's output, in order.
pub open spec fn sp_render_batch(ds: Seq<AliasDeclV>) -> Seq<TokenV> {
    sp_render_from(ds, 0)
}

/// Appends one token to `out`.
fn push_one(out: &mut Vec<Token>, tk: Token)
    ensures
        toks(final(out)@) == toks(old(out)@).push(tk@),
{
    let ghost tk0 = tk;
    out.push(tk);
    proof {
        assert(toks(final(out)@) =~= toks(old(out)@).push(tk0@));
    }
}

/// Appends clones of `src[j..]` to `out`.
fn push_tokens(out: &mut Vec<Token>, src: &Vec<Token>, j: usize)
    requires
        j <= src@.len(),
    ensures
        final(out)@ == old(out)@ + src@.skip(j as int),
    decreases src@.len() - j,
{
    if j < src.len() {
        let tk = src[j].clone();
        out.push(tk);
        push_tokens(out, src, j + 1);
        proof {
            assert(src@.skip(j as int) =~= seq![src@[j as int]] + src@.skip(j as int + 1));
            assert(old(out)@ + src@.skip(j as int) =~= (old(out)@ + seq![src@[j as int]])
                + src@.skip(j as int + 1));
            assert(old(out)@.push(src@[j as int]) =~= old(out)@ + seq![src@[j as int]]);
        }
    } else {
        proof {
            assert(old(out)@ + src@.skip(j as int) =~= old(out)@);
        }
    }
}

/// Appends the bounds from position `j` on, `+`-joined, to `out`.
fn push_bounds(out: &mut Vec<Token>, bs: &Vec<Bound>, j: usize)
    requires
        j <= bs@.len(),
    ensures
        toks(final(out)@) == toks(old(out)@) + sp_bounds_from(bnds(bs@), j as int),
    decreases bs@.len() - j,
{
    if j < bs.len() {
        if j > 0 {
            push_one(out, Token::Punct("+".to_owned()));
        }
        let ghost sep: Seq<Token> = out@;
        push_tokens(out, &bs[j].tokens, 0);
        proof {
            assert(bs@[j as int].tokens@.skip(0) =~= bs@[j as int].tokens@);
            lemma_toks_add(sep, bs@[j as int].tokens@);
            assert(bnds(bs@)[j as int] == bs@[j as int]@);
        }
        push_bounds(out, bs, j + 1);
        proof {
            assert(toks(final(out)@) =~= toks(old(out)@) + sp_bounds_from(bnds(bs@), j as int));
        }
    } else {
        proof {
            assert(toks(old(out)@) + sp_bounds_from(bnds(bs@), j as int) =~= toks(old(out)@));
        }
    }
}

/// Appends one generic parameter, full or stripped, to `out`.
fn push_param(out: &mut Vec<Token>, p: &GenericParam, stripped: bool)
    ensures
        toks(final(out)@) == toks(old(out)@) + (if stripped {
            sp_param_stripped(p@)
        } else {
            sp_param_full(p@)
        }),
{
    match p {
        GenericParam::Lifetime(l) => {
            push_one(out, Token::Lifetime(l.clone()));
            proof {
                assert(toks(final(out)@) =~= toks(old(out)@) + seq![TokenV::Lifetime(l@)]);
            }
        },
        GenericParam::Type { name, bounds } => {
            push_one(out, Token::Ident(name.clone()));
            if !stripped && bounds.len() > 0 {
                push_one(out, Token::Punct(":".to_owned()));
                push_bounds(out, bounds, 0);
                proof {
                    assert(toks(final(out)@) =~= toks(old(out)@) + sp_param_full(p@));
                }
            } else {
                proof {
                    if stripped {
                        assert(toks(final(out)@) =~= toks(old(out)@) + sp_param_stripped(p@));
                    } else {
                        assert(toks(final(out)@) =~= toks(old(out)@) + sp_param_full(p@));
                    }
                }
            }
        },
    }
}

/// Appends the parameters from position `j` on, comma-joined, to `out`.
fn push_params(out: &mut Vec<Token>, ps: &Vec<GenericParam>, j: usize, stripped: bool)
    requires
        j <= ps@.len(),
    ensures
        toks(final(out)@) == toks(old(out)@) + sp_params_from(prms(ps@), j as int, stripped),
    decreases ps@.len() - j,
{
    if j < ps.len() {
        if j > 0 {
            push_one(out, Token::Punct(",".to_owned()));
        }
        push_param(out, &ps[j], stripped);
        proof {
            assert(prms(ps@)[j as int] == ps@[j as int]@);
        }
        push_params(out, ps, j + 1, stripped);
        proof {
            assert(toks(final(out)@) =~= toks(old(out)@)
                + sp_params_from(prms(ps@), j as int, stripped));
        }
    } else {
        proof {
            assert(toks(old(out)@) + sp_params_from(prms(ps@), j as int, stripped)
                =~= toks(old(out)@));
        }
    }
}

/// Appends the declaration's documentation attribute, if any, to `out`.
fn push_doc(out: &mut Vec<Token>, doc: &Option<String>)
    ensures
        toks(final(out)@) == toks(old(out)@) + sp_doc_toks(match *doc {
            Some(ref s) => Some(s@),
            None => None,
        }),
{
    match doc {
        Some(s) => {
            push_one(out, Token::Punct("#".to_owned()));
            push_one(out, Token::Open(Delim::Bracket));
            push_one(out, Token::Ident("doc".to_owned()));
            push_one(out, Token::Punct("=".to_owned()));
            push_one(out, Token::LitStr(s.clone()));
            push_one(out, Token::Close(Delim::Bracket));
            proof {
                assert(toks(final(out)@) =~= toks(old(out)@) + sp_doc_attr(s@));
            }
        },
        None => {
            proof {
                assert(toks(final(out)@) =~= toks(old(out)@) + Seq::<TokenV>::empty());
            }
        },
    }
}

impl AliasDecl {
    /// Renders a declaration without generic parameters.
    #[verifier::rlimit(100)]
    pub fn render_non_generic(&self) -> (out: Vec<Token>)
        requires
            self.generics@.len() == 0,
        ensures
            toks(out@) == sp_render_non_generic(self@),
    {
        let mut out: Vec<Token> = Vec::new();
        push_doc(&mut out, &self.doc);
        push_tokens(&mut out, &self.vis, 0);
        proof {
            assert(self.vis@.skip(0) =~= self.vis@);
            lemma_toks_add(Seq::empty(), self.vis@);
            assert(toks(out@) =~= sp_doc_toks(self@.doc) + self@.vis) by {
                assert(toks(Seq::<Token>::empty()) =~= Seq::<TokenV>::empty());
            }
        }
        let ghost head: Seq<TokenV> = toks(out@);
        push_one(&mut out, Token::Ident("trait".to_owned()));
        push_one(&mut out, Token::Ident(self.name.clone()));
        push_one(&mut out, Token::Punct(":".to_owned()));
        proof {
            assert(toks(out@) =~= head + seq![
                TokenV::Ident("trait"@),
                TokenV::Ident(self@.name),
                TokenV::Punct(":"@),
            ]);
        }
        push_bounds(&mut out, &self.bounds, 0);
        let ghost mid: Seq<TokenV> = toks(out@);
        push_one(&mut out, Token::Open(Delim::Brace));
        push_one(&mut out, Token::Close(Delim::Brace));
        push_one(&mut out, Token::Ident("impl".to_owned()));
        push_one(&mut out, Token::Punct("<".to_owned()));
        push_one(&mut out, Token::Ident("_INNER".to_owned()));
        push_one(&mut out, Token::Punct(">".to_owned()));
        push_one(&mut out, Token::Ident(self.name.clone()));
        push_one(&mut out, Token::Ident("for".to_owned()));
        push_one(&mut out, Token::Ident("_INNER".to_owned()));
        push_one(&mut out, Token::Ident("where".to_owned()));
        push_one(&mut out, Token::Ident("_INNER".to_owned()));
        push_one(&mut out, Token::Punct(":".to_owned()));
        proof {
            assert(toks(out@) =~= mid + seq![
                TokenV::Open(Delim::Brace),
                TokenV::Close(Delim::Brace),
                TokenV::Ident("impl"@),
                TokenV::Punct("<"@),
                TokenV::Ident("_INNER"@),
                TokenV::Punct(">"@),
                TokenV::Ident(self@.name),
                TokenV::Ident("for"@),
                TokenV::Ident("_INNER"@),
                TokenV::Ident("where"@),
                TokenV::Ident("_INNER"@),
                TokenV::Punct(":"@),
            ]);
        }
        push_bounds(&mut out, &self.bounds, 0);
        let ghost tail: Seq<TokenV> = toks(out@);
        push_one(&mut out, Token::Open(Delim::Brace));
        push_one(&mut out, Token::Close(Delim::Brace));
        proof {
            assert(toks(out@) =~= tail + seq![
                TokenV::Open(Delim::Brace),
                TokenV::Close(Delim::Brace),
            ]);
            assert(toks(out@) =~= sp_render_non_generic(self@));
        }
        out
    }

    /// Renders a declaration with generic parameters, emitting the
    /// bound-carrying parameter list in the trait header and in the
    /// implementation's own parameter list, and the bound-stripped list in
    /// the trait-argument position.
    #[verifier::rlimit(100)]
    pub fn render_generic(&self) -> (out: Vec<Token>)
        requires
            self.generics@.len() > 0,
        ensures
            toks(out@) == sp_render_generic(self@),
    {
        let mut out: Vec<Token> = Vec::new();
        push_doc(&mut out, &self.doc);
        push_tokens(&mut out, &self.vis, 0);
        proof {
            assert(self.vis@.skip(0) =~= self.vis@);
            lemma_toks_add(Seq::empty(), self.vis@);
            assert(toks(out@) =~= sp_doc_toks(self@.doc) + self@.vis) by {
                assert(toks(Seq::<Token>::empty()) =~= Seq::<TokenV>::empty());
            }
        }
        let ghost head: Seq<TokenV> = toks(out@);
        push_one(&mut out, Token::Ident("trait".to_owned()));
        push_one(&mut out, Token::Ident(self.name.clone()));
        push_one(&mut out, Token::Punct("<".to_owned()));
        proof {
            assert(toks(out@) =~= head + seq![
                TokenV::Ident("trait"@),
                TokenV::Ident(self@.name),
                TokenV::Punct("<"@),
            ]);
        }
        push_params(&mut out, &self.generics, 0, false);
        let ghost after_tp: Seq<TokenV> = toks(out@);
        push_one(&mut out, Token::Punct(">".to_owned()));
        push_one(&mut out, Token::Punct(":".to_owned()));
        proof {
            assert(toks(out@) =~= after_tp + seq![
                TokenV::Punct(">"@),
                TokenV::Punct(":"@),
            ]);
        }
        push_bounds(&mut out, &self.bounds, 0);
        let ghost mid: Seq<TokenV> = toks(out@);
        push_one(&mut out, Token::Open(Delim::Brace));
        push_one(&mut out, Token::Close(Delim::Brace));
        push_one(&mut out, Token::Ident("impl".to_owned()));
        push_one(&mut out, Token::Punct("<".to_owned()));
        proof {
            assert(toks(out@) =~= mid + seq![
                TokenV::Open(Delim::Brace),
                TokenV::Close(Delim::Brace),
                TokenV::Ident("impl"@),
                TokenV::Punct("<"@),
            ]);
        }
        push_params(&mut out, &self.generics, 0, false);
        let ghost after_ip: Seq<TokenV> = toks(out@);
        push_one(&mut out, Token::Punct(",".to_owned()));
        push_one(&mut out, Token::Ident("_INNER".to_owned()));
        push_one(&mut out, Token::Punct(">".to_owned()));
        push_one(&mut out, Token::Ident(self.name.clone()));
        push_one(&mut out, Token::Punct("<".to_owned()));
        proof {
            assert(toks(out@) =~= after_ip + seq![
                TokenV::Punct(","@),
                TokenV::Ident("_INNER"@),
                TokenV::Punct(">"@),
                TokenV::Ident(self@.name),
                TokenV::Punct("<"@),
            ]);
        }
        push_params(&mut out, &self.generics, 0, true);
        let ghost after_sp: Seq<TokenV> = toks(out@);
        push_one(&mut out, Token::Punct(">".to_owned()));
        push_one(&mut out, Token::Ident("for".to_owned()));
        push_one(&mut out, Token::Ident("_INNER".to_owned()));
        push_one(&mut out, Token::Ident("where".to_owned()));
        push_one(&mut out, Token::Ident("_INNER".to_owned()));
        push_one(&mut out, Token::Punct(":".to_owned()));
        proof {
            assert(toks(out@) =~= after_sp + seq![
                TokenV::Punct(">"@),
                TokenV::Ident("for"@),
                TokenV::Ident("_INNER"@),
                TokenV::Ident("where"@),
                TokenV::Ident("_INNER"@),
                TokenV::Punct(":"@),
            ]);
        }
        push_bounds(&mut out, &self.bounds, 0);
        let ghost tail: Seq<TokenV> = toks(out@);
        push_one(&mut out, Token::Open(Delim::Brace));
        push_one(&mut out, Token::Close(Delim::Brace));
        proof {
            assert(toks(out@) =~= tail + seq![
                TokenV::Open(Delim::Brace),
                TokenV::Close(Delim::Brace),
            ]);
            assert(toks(out@) =~= sp_render_generic(self@));
        }
        out
    }

    /// Renders one declaration: the generic and non-generic output forms
    /// differ, so they are produced by separate branches, selected solely
    /// by whether the declaration has generic parameters.
    pub fn render(&self) -> (out: Vec<Token>)
        ensures
            toks(out@) == sp_render_decl(self@),
    {
        if self.generics.len() == 0 {
            self.render_non_generic()
        } else {
            self.render_generic()
        }
    }
}

/// Appends the output of the declarations from position `j` on to `out`.
fn push_batch(out: &mut Vec<Token>, ds: &Vec<AliasDecl>, j: usize)
    requires
        j <= ds@.len(),
    ensures
        toks(final(out)@) == toks(old(out)@) + sp_render_from(dcls(ds@), j as int),
    decreases ds@.len() - j,
{
    if j < ds.len() {
        let mut frag = ds[j].render();
        let ghost fragv: Seq<Token> = frag@;
        out.append(&mut frag);
        proof {
            lemma_toks_add(old(out)@, fragv);
            assert(dcls(ds@)[j as int] == ds@[j as int]@);
        }
        push_batch(out, ds, j + 1);
        proof {
            assert(toks(final(out)@) =~= toks(old(out)@)
                + sp_render_from(dcls(ds@), j as int));
        }
    } else {
        proof {
            assert(toks(old(out)@) + sp_render_from(dcls(ds@), j as int)
                =~= toks(old(out)@));
        }
    }
}

impl AliasBatch {
    /// Renders a whole batch: each declaration's output fragment,
    /// concatenated in declaration order, with nothing in between.
    pub fn render(&self) -> (out: Vec<Token>)
        ensures
            toks(out@) == sp_render_batch(self@),
    {
        let mut out: Vec<Token> = Vec::new();
        push_batch(&mut out, &self.decls, 0);
        proof {
            assert(toks(Seq::<Token>::empty()) =~= Seq::<TokenV>::empty());
            assert(toks(out@) =~= sp_render_batch(self@));
        }
        out
    }
}

} // verus!
