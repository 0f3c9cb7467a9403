//! The structured representation of parsed alias declarations.
//!
//! A batch of declarations is parsed from tokens once, never mutated, and
//! rendered into output tokens. Bound expressions are opaque token runs:
//! the library counts and orders them but never looks inside.

use vstd::prelude::*;

verus! {

use crate::token::{Token, TokenV, toks};

/// One trait bound of an alias: an opaque run of tokens
/// (a trait path, a lifetime, or a higher-rank-quantified bound).
#[derive(PartialEq, Eq, Debug)]
pub struct Bound {
    pub tokens: Vec<Token>,
}

impl View for Bound {
    type V = Seq<TokenV>;

    open spec fn view(&self) -> Seq<TokenV> {
        toks(self.tokens@)
    }
}

/// One generic parameter of an alias declaration: a lifetime, or a type
/// parameter that may carry its own inline bounds (e.g. `T: Send`).
#[derive(PartialEq, Eq, Debug)]
pub enum GenericParam {
    Lifetime(String),
    Type { name: String, bounds: Vec<Bound> },
}

/// The mathematical value of a generic parameter.
pub enum GenericParamV {
    Lifetime(Seq<char>),
    Type { name: Seq<char>, bounds: Seq<Seq<TokenV>> },
}

/// The views of a sequence of bounds, element by element.
pub open spec fn bnds(bs: Seq<Bound>) -> Seq<Seq<TokenV>> {
    bs.map(|i: int, b: Bound| b@)
}

impl View for GenericParam {
    type V = GenericParamV;

    open spec fn view(&self) -> GenericParamV {
        match self {
            GenericParam::Lifetime(l) => GenericParamV::Lifetime(l@),
            GenericParam::Type { name, bounds } => GenericParamV::Type {
                name: name@,
                bounds: bnds(bounds@),
            },
        }
    }
}

/// The views of a sequence of generic parameters, element by element.
pub open spec fn prms(ps: Seq<GenericParam>) -> Seq<GenericParamV> {
    ps.map(|i: int, p: GenericParam| p@)
}

/// The views of a sequence of strings, element by element.
pub open spec fn strs(ss: Seq<String>) -> Seq<Seq<char>> {
    ss.map(|i: int, s: String| s@)
}

/// One parsed trait-alias declaration.
#[derive(PartialEq, Eq, Debug)]
pub struct AliasDecl {
    /// All documentation text attached to the declaration, each original
    /// line newline-terminated, joined in source order; `None` if the
    /// declaration carries no documentation attribute.
    pub doc: Option<String>,
    /// The visibility tokens preceding the `trait` keyword, passed through
    /// unexamined; empty means private.
    pub vis: Vec<Token>,
    /// The alias's name.
    pub name: String,
    /// The generic parameters, in source order; may be empty.
    pub generics: Vec<GenericParam>,
    /// The bounds on the right-hand side of the alias, in source order.
    pub bounds: Vec<Bound>,
}

/// The mathematical value of an alias declaration.
pub struct AliasDeclV {
    pub doc: Option<Seq<char>>,
    pub vis: Seq<TokenV>,
    pub name: Seq<char>,
    pub generics: Seq<GenericParamV>,
    pub bounds: Seq<Seq<TokenV>>,
}

impl View for AliasDecl {
    type V = AliasDeclV;

    open spec fn view(&self) -> AliasDeclV {
        AliasDeclV {
            doc: match self.doc {
                Some(s) => Some(s@),
                None => None,
            },
            vis: toks(self.vis@),
            name: self.name@,
            generics: prms(self.generics@),
            bounds: bnds(self.bounds@),
        }
    }
}

impl AliasDeclV {
    /// Well-formedness: every declaration the parser hands out has at
    /// least one bound, and no bound is an empty token run.
    pub open spec fn wf(self) -> bool {
        &&& self.bounds.len() >= 1
        &&& forall|i: int| 0 <= i < self.bounds.len() ==> self.bounds[i].len() >= 1
    }
}

/// Every declaration in the sequence is well-formed.
pub open spec fn all_wf(ds: Seq<AliasDeclV>) -> bool {
    forall|i: int| 0 <= i < ds.len() ==> ds[i].wf()
}

/// The views of a sequence of declarations, element by element.
pub open spec fn dcls(ds: Seq<AliasDecl>) -> Seq<AliasDeclV> {
    ds.map(|i: int, d: AliasDecl| d@)
}

/// An ordered batch of alias declarations, as one macro invocation holds.
#[derive(PartialEq, Eq, Debug)]
pub struct AliasBatch {
    pub decls: Vec<AliasDecl>,
}

impl View for AliasBatch {
    type V = Seq<AliasDeclV>;

    open spec fn view(&self) -> Seq<AliasDeclV> {
        dcls(self.decls@)
    }
}

} // verus!
