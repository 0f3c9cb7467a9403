//! Verified synthesis of trait aliases.
//!
//! A trait alias combines a group of trait bounds under a single name:
//!
//! ```text
//! [visibility] trait AliasName[<generics>] = Bound1 + Bound2 + ... + BoundN;
//! ```
//!
//! The library parses a batch of such declarations from a flat token
//! sequence and synthesizes, for each one, an equivalent trait definition
//! (the bounds become supertraits) together with a blanket implementation,
//! so that the alias name can stand anywhere the bounds could.
//!
//! The host compiler's tokenizer and its later name-resolution and
//! type-checking phases are external collaborators: tokens come in and go
//! out as plain values of [`token::Token`], and the synthesized output is
//! only promised to be well-formed syntax, never checked for
//! satisfiability. There is no other interface: the whole pipeline is a
//! pure, deterministic transformation from tokens to tokens.

use vstd::prelude::*;

pub mod token;
pub mod ast;
pub mod parse;
pub mod render;
pub mod laws;

verus! {

use crate::token::{Token, toks};
use crate::parse::{parse, sp_parse, SpRes, ParseError};
use crate::render::sp_render_batch;

/// Expands a batch of alias declarations: parses the input tokens and, on
/// success, renders every declaration's synthesized trait and blanket
/// implementation, concatenated in declaration order. The first parse
/// error aborts the whole batch: no output is produced.
pub fn trait_set(tokens: &Vec<Token>) -> (r: Result<Vec<Token>, ParseError>)
    ensures
        (match r {
            Ok(out) => sp_parse(toks(tokens@)) matches SpRes::Parsed { batch } && toks(out@)
                == sp_render_batch(batch),
            Err(e) => sp_parse(toks(tokens@)) == (SpRes::Rejected {
                pos: e.pos as int,
                kind: e.kind,
            }),
        }),
{
    match parse(tokens) {
        Ok(batch) => Ok(batch.render()),
        Err(e) => Err(e),
    }
}

} // verus!
