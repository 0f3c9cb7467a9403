//! Laws the library states about itself, proved once and for all inputs.

use vstd::prelude::*;

verus! {

use crate::token::{Delim, TokenV};
use crate::ast::{AliasDeclV, GenericParamV, all_wf};
use crate::parse::{
    sp_parse, sp_join_docs, sp_docs_from, sp_mk_decl, SpRes, is_openv, is_closev, sp_batch,
    sp_attrs, sp_skip_attr, sp_vis, sp_vis_group, sp_kw_trait, sp_generics_start, sp_params,
    sp_param_sep, sp_pbounds, sp_where_eq, sp_bounds,
};
use crate::render::{
    sp_render_decl, sp_render_non_generic, sp_render_generic, sp_render_from, sp_render_batch,
    sp_doc_toks, sp_bounds_toks, sp_params_toks,
};

/// Blanket-implementation coverage is syntactically exact for a
/// declaration without generics: the synthesized trait's supertrait list
/// and the bound list the blanket implementation requires of its fresh
/// implementing parameter are both exactly the alias's declared bounds,
/// in declaration order — no bound added, none dropped. A type therefore
/// faces the very conjunction the alias declared, on both sides.
pub proof fn lemma_non_generic_blanket_exact(d: AliasDeclV)
    requires
        d.generics.len() == 0,
    ensures
        ({
            let out = sp_render_decl(d);
            let pre = sp_doc_toks(d.doc).len() + d.vis.len() + 3;
            let b = sp_bounds_toks(d.bounds).len();
            &&& out.len() == pre + b + 12 + b + 2
            &&& out.subrange(pre as int, (pre + b) as int) == sp_bounds_toks(d.bounds)
            &&& out.subrange((pre + b + 12) as int, (pre + b + 12 + b) as int) == sp_bounds_toks(
                d.bounds,
            )
        }),
{
    let out = sp_render_decl(d);
    let pre = sp_doc_toks(d.doc).len() + d.vis.len() + 3;
    let b = sp_bounds_toks(d.bounds).len();
    assert(out == sp_render_non_generic(d));
    assert(out.subrange(pre as int, (pre + b) as int) =~= sp_bounds_toks(d.bounds));
    assert(out.subrange((pre + b + 12) as int, (pre + b + 12 + b) as int) =~= sp_bounds_toks(
        d.bounds,
    ));
}

/// The dual-list shape of the generic branch is exact: the trait header
/// and the blanket implementation's own parameter list carry the very
/// same bound-carrying parameter list, the trait-argument position
/// carries the same parameters bound-stripped, and the supertrait list
/// and the implementation's required bounds are both exactly the declared
/// bounds. Under any substitution for the parameters, the implementation
/// therefore requires of the fresh type exactly the substituted bounds.
#[verifier::rlimit(100)]
pub proof fn lemma_generic_dual_lists(d: AliasDeclV)
    requires
        d.generics.len() > 0,
    ensures
        ({
            let out = sp_render_decl(d);
            let a = sp_doc_toks(d.doc).len() + d.vis.len();
            let p = sp_params_toks(d.generics, false).len();
            let s = sp_params_toks(d.generics, true).len();
            let b = sp_bounds_toks(d.bounds).len();
            &&& out.len() == a + 3 + p + 2 + b + 4 + p + 5 + s + 6 + b + 2
            &&& out.subrange((a + 3) as int, (a + 3 + p) as int) == sp_params_toks(
                d.generics,
                false,
            )
            &&& out.subrange((a + 3 + p + 2) as int, (a + 3 + p + 2 + b) as int)
                == sp_bounds_toks(d.bounds)
            &&& out.subrange((a + 3 + p + 2 + b + 4) as int, (a + 3 + p + 2 + b + 4 + p) as int)
                == sp_params_toks(d.generics, false)
            &&& out.subrange(
                (a + 3 + p + 2 + b + 4 + p + 5) as int,
                (a + 3 + p + 2 + b + 4 + p + 5 + s) as int,
            ) == sp_params_toks(d.generics, true)
            &&& out.subrange(
                (a + 3 + p + 2 + b + 4 + p + 5 + s + 6) as int,
                (a + 3 + p + 2 + b + 4 + p + 5 + s + 6 + b) as int,
            ) == sp_bounds_toks(d.bounds)
        }),
{
    let out = sp_render_decl(d);
    let a = sp_doc_toks(d.doc).len() + d.vis.len();
    let p = sp_params_toks(d.generics, false).len();
    let s = sp_params_toks(d.generics, true).len();
    let b = sp_bounds_toks(d.bounds).len();
    assert(out == sp_render_generic(d));
    assert(out.subrange((a + 3) as int, (a + 3 + p) as int) =~= sp_params_toks(d.generics, false));
    assert(out.subrange((a + 3 + p + 2) as int, (a + 3 + p + 2 + b) as int) =~= sp_bounds_toks(
        d.bounds,
    ));
    assert(out.subrange((a + 3 + p + 2 + b + 4) as int, (a + 3 + p + 2 + b + 4 + p) as int)
        =~= sp_params_toks(d.generics, false));
    assert(out.subrange(
        (a + 3 + p + 2 + b + 4 + p + 5) as int,
        (a + 3 + p + 2 + b + 4 + p + 5 + s) as int,
    ) =~= sp_params_toks(d.generics, true));
    assert(out.subrange(
        (a + 3 + p + 2 + b + 4 + p + 5 + s + 6) as int,
        (a + 3 + p + 2 + b + 4 + p + 5 + s + 6 + b) as int,
    ) =~= sp_bounds_toks(d.bounds));
}

/// Rendering from position `j` renders exactly the remaining
/// declarations.
proof fn lemma_render_from_is_skip(s: Seq<AliasDeclV>, j: int)
    requires
        0 <= j <= s.len(),
    ensures
        sp_render_from(s, j) == sp_render_batch(s.skip(j)),
    decreases s.len() - j,
{
    if j == s.len() {
        assert(s.skip(j) =~= Seq::<AliasDeclV>::empty());
    } else {
        lemma_render_from_is_skip(s, j + 1);
        lemma_render_from_is_skip(s.skip(j), 1);
        assert(s.skip(j).skip(1) =~= s.skip(j + 1));
        assert(s.skip(j)[0] == s[j]);
    }
}

/// Batch output is a concatenation homomorphism: declarations are
/// rendered independently and in order, so splitting a batch anywhere
/// splits its output at the matching point. In particular a batch of
/// several declarations produces exactly that many fragment pairs, in
/// input order, and a declaration that names an earlier alias is rendered
/// with no knowledge of it — composition is left entirely to the host's
/// later name resolution.
pub proof fn lemma_render_batch_concat(a: Seq<AliasDeclV>, b: Seq<AliasDeclV>)
    ensures
        sp_render_batch(a + b) == sp_render_batch(a) + sp_render_batch(b),
    decreases a.len(),
{
    if a.len() == 0 {
        assert(a + b =~= b);
        assert(sp_render_batch(a) + sp_render_batch(b) =~= sp_render_batch(b));
    } else {
        lemma_render_batch_concat(a.skip(1), b);
        lemma_render_from_is_skip(a + b, 1);
        lemma_render_from_is_skip(a, 1);
        assert((a + b).skip(1) =~= a.skip(1) + b);
        assert((a + b)[0] == a[0]);
        assert(sp_render_decl(a[0]) + (sp_render_batch(a.skip(1)) + sp_render_batch(b))
            =~= (sp_render_decl(a[0]) + sp_render_batch(a.skip(1))) + sp_render_batch(b));
    }
}

/// An empty input is a valid batch, not an error, and produces empty
/// output.
pub proof fn lemma_empty_batch()
    ensures
        sp_parse(Seq::empty()) == (SpRes::Parsed { batch: Seq::<AliasDeclV>::empty() }),
        sp_render_batch(Seq::empty()) == Seq::<TokenV>::empty(),
{
}

/// Documentation concatenation is order-preserving and newline-joined:
/// two documentation lines `x` and `y` become exactly `x`, a newline,
/// `y`, a newline.
pub proof fn lemma_doc_two_lines(x: Seq<char>, y: Seq<char>)
    ensures
        sp_join_docs(seq![x, y]) == Some(x + "\n"@ + y + "\n"@),
{
    let lines = seq![x, y];
    assert(sp_docs_from(lines, 2) =~= Seq::<char>::empty());
    assert(sp_docs_from(lines, 1) =~= y + "\n"@);
    assert(sp_docs_from(lines, 0) =~= x + "\n"@ + y + "\n"@);
}


/// Every bound token run in the sequence is non-empty.
spec fn all_nonempty(bs: Seq<Seq<TokenV>>) -> bool {
    forall|i: int| 0 <= i < bs.len() ==> bs[i].len() >= 1
}

proof fn wf_batch(t: Seq<TokenV>, i: int, acc: Seq<AliasDeclV>)
    requires
        all_wf(acc),
    ensures
        (sp_batch(t, i, acc) matches SpRes::Parsed { batch } ==> all_wf(batch)),
    decreases t.len() - i, 5int,
{
    if i < t.len() {
        wf_attrs(t, i, acc, Seq::empty());
    }
}

proof fn wf_attrs(t: Seq<TokenV>, i: int, acc: Seq<AliasDeclV>, docs: Seq<Seq<char>>)
    requires
        all_wf(acc),
    ensures
        (sp_attrs(t, i, acc, docs) matches SpRes::Parsed { batch } ==> all_wf(batch)),
    decreases t.len() - i, 4int,
{
    if i < t.len() && t[i] == TokenV::Punct("#"@) {
        if i + 1 < t.len() && t[i + 1] == TokenV::Open(Delim::Bracket) {
            if i + 5 < t.len() && t[i + 2] == TokenV::Ident("doc"@) && t[i + 3] == TokenV::Punct(
                "="@,
            ) && (t[i + 4] matches TokenV::LitStr(_)) && t[i + 5] == TokenV::Close(Delim::Bracket) {
                match t[i + 4] {
                    TokenV::LitStr(s) => wf_attrs(t, i + 6, acc, docs.push(s)),
                    _ => {},
                }
            } else {
                wf_skip_attr(t, i + 2, 0, acc, docs);
            }
        }
    } else {
        wf_vis(t, i, acc, docs);
    }
}

proof fn wf_skip_attr(t: Seq<TokenV>, i: int, depth: nat, acc: Seq<AliasDeclV>, docs: Seq<Seq<char>>)
    requires
        all_wf(acc),
    ensures
        (sp_skip_attr(t, i, depth, acc, docs) matches SpRes::Parsed { batch } ==> all_wf(batch)),
    decreases t.len() - i, 0int,
{
    if i >= t.len() {
    } else if is_openv(t[i]) {
        wf_skip_attr(t, i + 1, depth + 1, acc, docs);
    } else if is_closev(t[i]) {
        if depth == 0 {
            wf_attrs(t, i + 1, acc, docs);
        } else {
            wf_skip_attr(t, i + 1, (depth - 1) as nat, acc, docs);
        }
    } else {
        wf_skip_attr(t, i + 1, depth, acc, docs);
    }
}

proof fn wf_vis(t: Seq<TokenV>, i: int, acc: Seq<AliasDeclV>, docs: Seq<Seq<char>>)
    requires
        all_wf(acc),
    ensures
        (sp_vis(t, i, acc, docs) matches SpRes::Parsed { batch } ==> all_wf(batch)),
    decreases t.len() - i, 3int,
{
    if i < t.len() && t[i] == TokenV::Ident("pub"@) {
        if i + 1 < t.len() && t[i + 1] == TokenV::Open(Delim::Paren) {
            wf_vis_group(
                t,
                i + 2,
                0,
                acc,
                docs,
                seq![TokenV::Ident("pub"@), TokenV::Open(Delim::Paren)],
            );
        } else {
            wf_kw_trait(t, i + 1, acc, docs, seq![TokenV::Ident("pub"@)]);
        }
    } else {
        wf_kw_trait(t, i, acc, docs, Seq::empty());
    }
}

proof fn wf_vis_group(
    t: Seq<TokenV>,
    i: int,
    depth: nat,
    acc: Seq<AliasDeclV>,
    docs: Seq<Seq<char>>,
    vis: Seq<TokenV>,
)
    requires
        all_wf(acc),
    ensures
        (sp_vis_group(t, i, depth, acc, docs, vis) matches SpRes::Parsed { batch } ==> all_wf(
            batch,
        )),
    decreases t.len() - i, 0int,
{
    if i >= t.len() {
    } else if is_openv(t[i]) {
        wf_vis_group(t, i + 1, depth + 1, acc, docs, vis.push(t[i]));
    } else if is_closev(t[i]) {
        if depth == 0 {
            wf_kw_trait(t, i + 1, acc, docs, vis.push(t[i]));
        } else {
            wf_vis_group(t, i + 1, (depth - 1) as nat, acc, docs, vis.push(t[i]));
        }
    } else {
        wf_vis_group(t, i + 1, depth, acc, docs, vis.push(t[i]));
    }
}

proof fn wf_kw_trait(
    t: Seq<TokenV>,
    i: int,
    acc: Seq<AliasDeclV>,
    docs: Seq<Seq<char>>,
    vis: Seq<TokenV>,
)
    requires
        all_wf(acc),
    ensures
        (sp_kw_trait(t, i, acc, docs, vis) matches SpRes::Parsed { batch } ==> all_wf(batch)),
    decreases t.len() - i, 2int,
{
    if i < t.len() && t[i] == TokenV::Ident("trait"@) {
        if i + 1 < t.len() && (t[i + 1] matches TokenV::Ident(_)) {
            match t[i + 1] {
                TokenV::Ident(n) => wf_generics_start(t, i + 2, acc, docs, vis, n),
                _ => {},
            }
        }
    }
}

proof fn wf_generics_start(
    t: Seq<TokenV>,
    i: int,
    acc: Seq<AliasDeclV>,
    docs: Seq<Seq<char>>,
    vis: Seq<TokenV>,
    name: Seq<char>,
)
    requires
        all_wf(acc),
    ensures
        (sp_generics_start(t, i, acc, docs, vis, name) matches SpRes::Parsed { batch } ==> all_wf(
            batch,
        )),
    decreases t.len() - i, 2int,
{
    if i < t.len() && t[i] == TokenV::Punct("<"@) {
        wf_params(t, i + 1, acc, docs, vis, name, Seq::empty());
    } else {
        wf_where_eq(t, i, acc, docs, vis, name, Seq::empty());
    }
}

proof fn wf_params(
    t: Seq<TokenV>,
    i: int,
    acc: Seq<AliasDeclV>,
    docs: Seq<Seq<char>>,
    vis: Seq<TokenV>,
    name: Seq<char>,
    params: Seq<GenericParamV>,
)
    requires
        all_wf(acc),
    ensures
        (sp_params(t, i, acc, docs, vis, name, params) matches SpRes::Parsed { batch } ==> all_wf(
            batch,
        )),
    decreases t.len() - i, 0int,
{
    if i >= t.len() {
    } else if t[i] == TokenV::Punct(">"@) {
        wf_where_eq(t, i + 1, acc, docs, vis, name, params);
    } else {
        match t[i] {
            TokenV::Lifetime(l) => {
                wf_param_sep(t, i + 1, acc, docs, vis, name, params.push(GenericParamV::Lifetime(l)));
            },
            TokenV::Ident(n) => {
                if i + 1 < t.len() && t[i + 1] == TokenV::Punct(":"@) {
                    wf_pbounds(
                        t,
                        i + 2,
                        acc,
                        docs,
                        vis,
                        name,
                        params,
                        n,
                        Seq::empty(),
                        Seq::empty(),
                        0,
                        0,
                    );
                } else {
                    wf_param_sep(
                        t,
                        i + 1,
                        acc,
                        docs,
                        vis,
                        name,
                        params.push(GenericParamV::Type { name: n, bounds: Seq::empty() }),
                    );
                }
            },
            _ => {},
        }
    }
}

proof fn wf_param_sep(
    t: Seq<TokenV>,
    i: int,
    acc: Seq<AliasDeclV>,
    docs: Seq<Seq<char>>,
    vis: Seq<TokenV>,
    name: Seq<char>,
    params: Seq<GenericParamV>,
)
    requires
        all_wf(acc),
    ensures
        (sp_param_sep(t, i, acc, docs, vis, name, params) matches SpRes::Parsed { batch }
            ==> all_wf(batch)),
    decreases t.len() - i, 0int,
{
    if i >= t.len() {
    } else if t[i] == TokenV::Punct(","@) {
        wf_params(t, i + 1, acc, docs, vis, name, params);
    } else if t[i] == TokenV::Punct(">"@) {
        wf_where_eq(t, i + 1, acc, docs, vis, name, params);
    }
}

proof fn wf_pbounds(
    t: Seq<TokenV>,
    i: int,
    acc: Seq<AliasDeclV>,
    docs: Seq<Seq<char>>,
    vis: Seq<TokenV>,
    name: Seq<char>,
    params: Seq<GenericParamV>,
    pname: Seq<char>,
    pbounds: Seq<Seq<TokenV>>,
    cur: Seq<TokenV>,
    angle: nat,
    delim: nat,
)
    requires
        all_wf(acc),
    ensures
        (sp_pbounds(t, i, acc, docs, vis, name, params, pname, pbounds, cur, angle, delim)
            matches SpRes::Parsed { batch } ==> all_wf(batch)),
    decreases t.len() - i, 0int,
{
    if i >= t.len() {
    } else if is_openv(t[i]) {
        wf_pbounds(t, i + 1, acc, docs, vis, name, params, pname, pbounds, cur.push(t[i]), angle, delim + 1);
    } else if is_closev(t[i]) {
        if delim > 0 {
            wf_pbounds(t, i + 1, acc, docs, vis, name, params, pname, pbounds, cur.push(t[i]), angle, (delim - 1) as nat);
        }
    } else if delim > 0 {
        wf_pbounds(t, i + 1, acc, docs, vis, name, params, pname, pbounds, cur.push(t[i]), angle, delim);
    } else if t[i] == TokenV::Punct("<"@) {
        wf_pbounds(t, i + 1, acc, docs, vis, name, params, pname, pbounds, cur.push(t[i]), angle + 1, 0);
    } else if t[i] == TokenV::Punct(">"@) && angle > 0 {
        wf_pbounds(t, i + 1, acc, docs, vis, name, params, pname, pbounds, cur.push(t[i]), (angle - 1) as nat, 0);
    } else if angle > 0 {
        wf_pbounds(t, i + 1, acc, docs, vis, name, params, pname, pbounds, cur.push(t[i]), angle, 0);
    } else if t[i] == TokenV::Punct("+"@) {
        if cur.len() > 0 {
            wf_pbounds(t, i + 1, acc, docs, vis, name, params, pname, pbounds.push(cur), Seq::empty(), 0, 0);
        }
    } else if t[i] == TokenV::Punct(","@) {
        if cur.len() > 0 {
            wf_params(
                t,
                i + 1,
                acc,
                docs,
                vis,
                name,
                params.push(GenericParamV::Type { name: pname, bounds: pbounds.push(cur) }),
            );
        }
    } else if t[i] == TokenV::Punct(">"@) {
        if cur.len() > 0 {
            wf_where_eq(
                t,
                i + 1,
                acc,
                docs,
                vis,
                name,
                params.push(GenericParamV::Type { name: pname, bounds: pbounds.push(cur) }),
            );
        }
    } else {
        wf_pbounds(t, i + 1, acc, docs, vis, name, params, pname, pbounds, cur.push(t[i]), 0, 0);
    }
}

proof fn wf_where_eq(
    t: Seq<TokenV>,
    i: int,
    acc: Seq<AliasDeclV>,
    docs: Seq<Seq<char>>,
    vis: Seq<TokenV>,
    name: Seq<char>,
    params: Seq<GenericParamV>,
)
    requires
        all_wf(acc),
    ensures
        (sp_where_eq(t, i, acc, docs, vis, name, params) matches SpRes::Parsed { batch } ==> all_wf(
            batch,
        )),
    decreases t.len() - i, 1int,
{
    if i < t.len() && t[i] == TokenV::Ident("where"@) {
    } else if i < t.len() && t[i] == TokenV::Punct("="@) {
        wf_bounds(t, i + 1, acc, docs, vis, name, params, Seq::empty(), Seq::empty(), 0, 0);
    }
}

proof fn wf_bounds(
    t: Seq<TokenV>,
    i: int,
    acc: Seq<AliasDeclV>,
    docs: Seq<Seq<char>>,
    vis: Seq<TokenV>,
    name: Seq<char>,
    params: Seq<GenericParamV>,
    bounds: Seq<Seq<TokenV>>,
    cur: Seq<TokenV>,
    angle: nat,
    delim: nat,
)
    requires
        all_wf(acc),
        all_nonempty(bounds),
    ensures
        (sp_bounds(t, i, acc, docs, vis, name, params, bounds, cur, angle, delim)
            matches SpRes::Parsed { batch } ==> all_wf(batch)),
    decreases t.len() - i, 0int,
{
    if i >= t.len() {
    } else if is_openv(t[i]) {
        wf_bounds(t, i + 1, acc, docs, vis, name, params, bounds, cur.push(t[i]), angle, delim + 1);
    } else if is_closev(t[i]) {
        if delim > 0 {
            wf_bounds(t, i + 1, acc, docs, vis, name, params, bounds, cur.push(t[i]), angle, (delim - 1) as nat);
        }
    } else if delim > 0 {
        wf_bounds(t, i + 1, acc, docs, vis, name, params, bounds, cur.push(t[i]), angle, delim);
    } else if t[i] == TokenV::Punct("<"@) {
        wf_bounds(t, i + 1, acc, docs, vis, name, params, bounds, cur.push(t[i]), angle + 1, 0);
    } else if t[i] == TokenV::Punct(">"@) && angle > 0 {
        wf_bounds(t, i + 1, acc, docs, vis, name, params, bounds, cur.push(t[i]), (angle - 1) as nat, 0);
    } else if angle > 0 {
        wf_bounds(t, i + 1, acc, docs, vis, name, params, bounds, cur.push(t[i]), angle, 0);
    } else if t[i] == TokenV::Punct("+"@) {
        if cur.len() > 0 {
            assert(all_nonempty(bounds.push(cur)));
            wf_bounds(t, i + 1, acc, docs, vis, name, params, bounds.push(cur), Seq::empty(), 0, 0);
        }
    } else if t[i] == TokenV::Punct(";"@) {
        if cur.len() > 0 {
            let d = sp_mk_decl(docs, vis, name, params, bounds.push(cur));
            assert(all_nonempty(bounds.push(cur)));
            assert(d.wf());
            assert(all_wf(acc.push(d)));
            wf_batch(t, i + 1, acc.push(d));
        }
    } else {
        wf_bounds(t, i + 1, acc, docs, vis, name, params, bounds, cur.push(t[i]), 0, 0);
    }
}

/// Every declaration an accepted parse yields is well-formed: its bound
/// list is non-empty and no bound is an empty token run.
pub proof fn lemma_parse_wf(t: Seq<TokenV>)
    ensures
        (sp_parse(t) matches SpRes::Parsed { batch } ==> all_wf(batch)),
{
    wf_batch(t, 0, Seq::empty());
}

} // verus!
