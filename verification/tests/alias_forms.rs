//! The alias forms the library must handle, one batch per form: simple
//! conjunctions, associated-type bounds, generic aliases, lifetime
//! bounds, several declarations per batch, alias composition, and
//! higher-rank bounds.

use trait_set::token::{Delim, Token};
use trait_set::trait_set;

fn id(s: &str) -> Token {
    Token::Ident(s.to_string())
}

fn pu(s: &str) -> Token {
    Token::Punct(s.to_string())
}

fn lt(s: &str) -> Token {
    Token::Lifetime(s.to_string())
}

fn open(d: Delim) -> Token {
    Token::Open(d)
}

fn close(d: Delim) -> Token {
    Token::Close(d)
}

fn pub_crate() -> Vec<Token> {
    vec![id("pub"), open(Delim::Paren), id("crate"), close(Delim::Paren)]
}

/// The declaration tokens `vis trait name = bounds ;`.
fn decl(vis: Vec<Token>, name: &str, bounds: Vec<Token>) -> Vec<Token> {
    let mut out = vis;
    out.extend([id("trait"), id(name), pu("=")]);
    out.extend(bounds);
    out.push(pu(";"));
    out
}

/// The non-generic fragment pair for `vis trait name = bounds;`.
fn non_generic_fragment(vis: Vec<Token>, name: &str, bounds: Vec<Token>) -> Vec<Token> {
    let mut out = vis;
    out.extend([id("trait"), id(name), pu(":")]);
    out.extend(bounds.iter().cloned());
    out.extend([
        open(Delim::Brace),
        close(Delim::Brace),
        id("impl"),
        pu("<"),
        id("_INNER"),
        pu(">"),
        id(name),
        id("for"),
        id("_INNER"),
        id("where"),
        id("_INNER"),
        pu(":"),
    ]);
    out.extend(bounds);
    out.extend([open(Delim::Brace), close(Delim::Brace)]);
    out
}

fn iterator_item(item: &str) -> Vec<Token> {
    vec![id("Iterator"), pu("<"), id("Item"), pu("="), id(item), pu(">")]
}

#[test]
fn simple_it_compiles() {
    // pub(crate) trait TraitSet = Send + Sync;
    let input = decl(pub_crate(), "TraitSet", vec![id("Send"), pu("+"), id("Sync")]);
    let out = trait_set(&input).unwrap();
    let expected =
        non_generic_fragment(pub_crate(), "TraitSet", vec![id("Send"), pu("+"), id("Sync")]);
    assert_eq!(out, expected);
}

#[test]
fn associated_types_it_compiles() {
    // pub(crate) trait BytesIterator = Iterator<Item = u8>;
    let input = decl(pub_crate(), "BytesIterator", iterator_item("u8"));
    let out = trait_set(&input).unwrap();
    let expected = non_generic_fragment(pub_crate(), "BytesIterator", iterator_item("u8"));
    assert_eq!(out, expected);
}

#[test]
fn generic_it_compiles() {
    // pub(crate) trait GenericIterator<T> = Iterator<Item = T>;
    let mut input = pub_crate();
    input.extend([id("trait"), id("GenericIterator"), pu("<"), id("T"), pu(">"), pu("=")]);
    input.extend(iterator_item("T"));
    input.push(pu(";"));
    let out = trait_set(&input).unwrap();

    let mut expected = pub_crate();
    expected.extend([id("trait"), id("GenericIterator"), pu("<"), id("T"), pu(">"), pu(":")]);
    expected.extend(iterator_item("T"));
    expected.extend([
        open(Delim::Brace),
        close(Delim::Brace),
        id("impl"),
        pu("<"),
        id("T"),
        pu(","),
        id("_INNER"),
        pu(">"),
        id("GenericIterator"),
        pu("<"),
        id("T"),
        pu(">"),
        id("for"),
        id("_INNER"),
        id("where"),
        id("_INNER"),
        pu(":"),
    ]);
    expected.extend(iterator_item("T"));
    expected.extend([open(Delim::Brace), close(Delim::Brace)]);
    assert_eq!(out, expected);
}

#[test]
fn lifetimes_it_compiles() {
    // pub(crate) trait Set = 'static + Send + Sync;
    let bounds = vec![lt("static"), pu("+"), id("Send"), pu("+"), id("Sync")];
    let input = decl(pub_crate(), "Set", bounds.clone());
    let out = trait_set(&input).unwrap();
    assert_eq!(out, non_generic_fragment(pub_crate(), "Set", bounds));
}

#[test]
fn multiple_it_compiles() {
    // pub(crate) trait TraitSet = Send + Sync;
    // pub trait BytesIterator = Iterator<Item = u8>;
    // trait GenericIterator<T> = Iterator<Item = T>;
    let mut input = decl(pub_crate(), "TraitSet", vec![id("Send"), pu("+"), id("Sync")]);
    input.extend(decl(vec![id("pub")], "BytesIterator", iterator_item("u8")));
    input.extend([id("trait"), id("GenericIterator"), pu("<"), id("T"), pu(">"), pu("=")]);
    input.extend(iterator_item("T"));
    input.push(pu(";"));

    let out = trait_set(&input).unwrap();
    let mut expected =
        non_generic_fragment(pub_crate(), "TraitSet", vec![id("Send"), pu("+"), id("Sync")]);
    expected.extend(non_generic_fragment(
        vec![id("pub")],
        "BytesIterator",
        iterator_item("u8"),
    ));
    expected.extend([id("trait"), id("GenericIterator"), pu("<"), id("T"), pu(">"), pu(":")]);
    expected.extend(iterator_item("T"));
    expected.extend([
        open(Delim::Brace),
        close(Delim::Brace),
        id("impl"),
        pu("<"),
        id("T"),
        pu(","),
        id("_INNER"),
        pu(">"),
        id("GenericIterator"),
        pu("<"),
        id("T"),
        pu(">"),
        id("for"),
        id("_INNER"),
        id("where"),
        id("_INNER"),
        pu(":"),
    ]);
    expected.extend(iterator_item("T"));
    expected.extend([open(Delim::Brace), close(Delim::Brace)]);
    assert_eq!(out, expected);
}

#[test]
fn combination_it_compiles() {
    // pub trait ThreadSafe = Send + Sync;
    // pub trait BytesIterator = Iterator<Item = u8>;
    // pub trait ThreadSafeBytesIterator = ThreadSafe + BytesIterator;
    let mut input = decl(vec![id("pub")], "ThreadSafe", vec![id("Send"), pu("+"), id("Sync")]);
    input.extend(decl(vec![id("pub")], "BytesIterator", iterator_item("u8")));
    input.extend(decl(
        vec![id("pub")],
        "ThreadSafeBytesIterator",
        vec![id("ThreadSafe"), pu("+"), id("BytesIterator")],
    ));

    let out = trait_set(&input).unwrap();
    let mut expected = non_generic_fragment(
        vec![id("pub")],
        "ThreadSafe",
        vec![id("Send"), pu("+"), id("Sync")],
    );
    expected.extend(non_generic_fragment(
        vec![id("pub")],
        "BytesIterator",
        iterator_item("u8"),
    ));
    expected.extend(non_generic_fragment(
        vec![id("pub")],
        "ThreadSafeBytesIterator",
        vec![id("ThreadSafe"), pu("+"), id("BytesIterator")],
    ));
    assert_eq!(out, expected);
}

#[test]
fn serde_hrtb_it_compiles() {
    // pub trait Serde = Serialize + for<'de> Deserialize<'de>;
    let bounds = vec![
        id("Serialize"),
        pu("+"),
        id("for"),
        pu("<"),
        lt("de"),
        pu(">"),
        id("Deserialize"),
        pu("<"),
        lt("de"),
        pu(">"),
    ];
    let input = decl(vec![id("pub")], "Serde", bounds.clone());
    let out = trait_set(&input).unwrap();
    assert_eq!(out, non_generic_fragment(vec![id("pub")], "Serde", bounds));
}
