//! The token alphabet that alias declarations are written in and that
//! synthesized declarations are emitted in.
//!
//! The host compiler's tokenizer is an external collaborator: it hands the
//! library a flat sequence of [`Token`] values (delimited groups appear as
//! matching [`Token::Open`]/[`Token::Close`] pairs) and consumes the same
//! shape of sequence back.

use vstd::prelude::*;

verus! {

/// A delimiter kind for grouped tokens.
#[derive(Clone, Copy, PartialEq, Eq, Structural, Debug)]
pub enum Delim {
    /// `(` ... `)`
    Paren,
    /// `[` ... `]`
    Bracket,
    /// `{` ... `}`
    Brace,
}

/// One token of the surface syntax, as handed over by the tokenizer.
///
/// Multi-character operators that the host language lexes as one unit
/// (`::`, `->`) arrive as a single `Punct` whose text holds both characters,
/// so a `>` inside `->` never counts as an angle-bracket closer.
#[derive(PartialEq, Eq, Debug)]
pub enum Token {
    /// An identifier or keyword.
    Ident(String),
    /// A lifetime, stored without the leading apostrophe.
    Lifetime(String),
    /// A string literal, stored as its decoded value.
    LitStr(String),
    /// Any other literal, stored as its verbatim text.
    Literal(String),
    /// Punctuation, e.g. `;`, `+`, `=`, `<`, `>`, `:`, `::`, `,`, `#`, `->`.
    Punct(String),
    /// An opening delimiter.
    Open(Delim),
    /// A closing delimiter.
    Close(Delim),
}

/// The mathematical value of a token: the same shape over `Seq<char>`.
pub enum TokenV {
    Ident(Seq<char>),
    Lifetime(Seq<char>),
    LitStr(Seq<char>),
    Literal(Seq<char>),
    Punct(Seq<char>),
    Open(Delim),
    Close(Delim),
}

impl View for Token {
    type V = TokenV;

    open spec fn view(&self) -> TokenV {
        match self {
            Token::Ident(s) => TokenV::Ident(s@),
            Token::Lifetime(s) => TokenV::Lifetime(s@),
            Token::LitStr(s) => TokenV::LitStr(s@),
            Token::Literal(s) => TokenV::Literal(s@),
            Token::Punct(s) => TokenV::Punct(s@),
            Token::Open(d) => TokenV::Open(*d),
            Token::Close(d) => TokenV::Close(*d),
        }
    }
}

impl Clone for Token {
    fn clone(&self) -> (res: Token)
        ensures
            res == *self,
    {
        match self {
            Token::Ident(s) => Token::Ident(s.clone()),
            Token::Lifetime(s) => Token::Lifetime(s.clone()),
            Token::LitStr(s) => Token::LitStr(s.clone()),
            Token::Literal(s) => Token::Literal(s.clone()),
            Token::Punct(s) => Token::Punct(s.clone()),
            Token::Open(d) => Token::Open(*d),
            Token::Close(d) => Token::Close(*d),
        }
    }
}

/// The view of a token sequence, element by element.
pub open spec fn toks(ts: Seq<Token>) -> Seq<TokenV> {
    ts.map(|i: int, t: Token| t@)
}

/// Concatenation commutes with taking the sequence view.
pub proof fn lemma_toks_add(a: Seq<Token>, b: Seq<Token>)
    ensures
        toks(a + b) == toks(a) + toks(b),
{
    assert(toks(a + b) =~= toks(a) + toks(b));
}

} // verus!
