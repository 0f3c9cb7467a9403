//! End-to-end expansion tests: token batches in, synthesized trait and
//! blanket-implementation tokens out.

use trait_set::ast::GenericParam;
use trait_set::parse::{parse, ErrKind, ParseError};
use trait_set::token::{Delim, Token};
use trait_set::trait_set;

fn id(s: &str) -> Token {
    Token::Ident(s.to_string())
}

fn pu(s: &str) -> Token {
    Token::Punct(s.to_string())
}

fn lt(s: &str) -> Token {
    Token::Lifetime(s.to_string())
}

fn ls(s: &str) -> Token {
    Token::LitStr(s.to_string())
}

fn open(d: Delim) -> Token {
    Token::Open(d)
}

fn close(d: Delim) -> Token {
    Token::Close(d)
}

/// The non-generic fragment pair for `vis trait name = bounds;`.
fn non_generic_fragment(vis: Vec<Token>, name: &str, bounds: Vec<Token>) -> Vec<Token> {
    let mut out = vis;
    out.extend([id("trait"), id(name), pu(":")]);
    out.extend(bounds.iter().cloned());
    out.extend([
        open(Delim::Brace),
        close(Delim::Brace),
        id("impl"),
        pu("<"),
        id("_INNER"),
        pu(">"),
        id(name),
        id("for"),
        id("_INNER"),
        id("where"),
        id("_INNER"),
        pu(":"),
    ]);
    out.extend(bounds);
    out.extend([open(Delim::Brace), close(Delim::Brace)]);
    out
}

#[test]
fn it_compiles() {
    // Two aliases of the same bound set are independent, interoperable
    // declarations: each gets its own full fragment pair, in order.
    let vis = vec![id("pub"), open(Delim::Paren), id("crate"), close(Delim::Paren)];
    let mut input = vis.clone();
    input.extend([id("trait"), id("TraitSet1"), pu("="), id("Send"), pu("+"), id("Sync"), pu(";")]);
    input.extend(vis.clone());
    input.extend([id("trait"), id("TraitSet2"), pu("="), id("Send"), pu("+"), id("Sync"), pu(";")]);

    let out = trait_set(&input).unwrap();
    let mut expected = non_generic_fragment(
        vis.clone(),
        "TraitSet1",
        vec![id("Send"), pu("+"), id("Sync")],
    );
    expected.extend(non_generic_fragment(
        vis,
        "TraitSet2",
        vec![id("Send"), pu("+"), id("Sync")],
    ));
    assert_eq!(out, expected);
}

#[test]
fn non_generic_golden() {
    // pub trait ThreadSafe = Send + Sync;
    let input = vec![
        id("pub"),
        id("trait"),
        id("ThreadSafe"),
        pu("="),
        id("Send"),
        pu("+"),
        id("Sync"),
        pu(";"),
    ];
    let out = trait_set(&input).unwrap();
    let expected = non_generic_fragment(
        vec![id("pub")],
        "ThreadSafe",
        vec![id("Send"), pu("+"), id("Sync")],
    );
    assert_eq!(out, expected);
}

#[test]
fn generic_golden() {
    // pub trait GenericIterator<T> = Iterator<Item = T>;
    let input = vec![
        id("pub"),
        id("trait"),
        id("GenericIterator"),
        pu("<"),
        id("T"),
        pu(">"),
        pu("="),
        id("Iterator"),
        pu("<"),
        id("Item"),
        pu("="),
        id("T"),
        pu(">"),
        pu(";"),
    ];
    let out = trait_set(&input).unwrap();
    let bound = vec![id("Iterator"), pu("<"), id("Item"), pu("="), id("T"), pu(">")];
    let mut expected = vec![id("pub"), id("trait"), id("GenericIterator"), pu("<"), id("T"), pu(">"), pu(":")];
    expected.extend(bound.iter().cloned());
    expected.extend([
        open(Delim::Brace),
        close(Delim::Brace),
        id("impl"),
        pu("<"),
        id("T"),
        pu(","),
        id("_INNER"),
        pu(">"),
        id("GenericIterator"),
        pu("<"),
        id("T"),
        pu(">"),
        id("for"),
        id("_INNER"),
        id("where"),
        id("_INNER"),
        pu(":"),
    ]);
    expected.extend(bound);
    expected.extend([open(Delim::Brace), close(Delim::Brace)]);
    assert_eq!(out, expected);
}

#[test]
fn generic_param_inline_bounds_stripped_in_trait_argument() {
    // pub trait X<T: Send> = Iterator<Item = T>;
    // The implementation's own parameter list keeps `T: Send`; the
    // trait-argument position shows a bare `T`.
    let input = vec![
        id("pub"),
        id("trait"),
        id("X"),
        pu("<"),
        id("T"),
        pu(":"),
        id("Send"),
        pu(">"),
        pu("="),
        id("Iterator"),
        pu("<"),
        id("Item"),
        pu("="),
        id("T"),
        pu(">"),
        pu(";"),
    ];
    let out = trait_set(&input).unwrap();
    let bound = vec![id("Iterator"), pu("<"), id("Item"), pu("="), id("T"), pu(">")];
    let mut expected = vec![
        id("pub"),
        id("trait"),
        id("X"),
        pu("<"),
        id("T"),
        pu(":"),
        id("Send"),
        pu(">"),
        pu(":"),
    ];
    expected.extend(bound.iter().cloned());
    expected.extend([
        open(Delim::Brace),
        close(Delim::Brace),
        id("impl"),
        pu("<"),
        id("T"),
        pu(":"),
        id("Send"),
        pu(","),
        id("_INNER"),
        pu(">"),
        id("X"),
        pu("<"),
        id("T"),
        pu(">"),
        id("for"),
        id("_INNER"),
        id("where"),
        id("_INNER"),
        pu(":"),
    ]);
    expected.extend(bound);
    expected.extend([open(Delim::Brace), close(Delim::Brace)]);
    assert_eq!(out, expected);
}

#[test]
fn lifetimes_in_generics_precede_fresh_parameter() {
    // pub trait SerdeLifetimeTemplate<'de> = Serialize + Deserialize<'de>;
    let input = vec![
        id("pub"),
        id("trait"),
        id("SerdeLifetimeTemplate"),
        pu("<"),
        lt("de"),
        pu(">"),
        pu("="),
        id("Serialize"),
        pu("+"),
        id("Deserialize"),
        pu("<"),
        lt("de"),
        pu(">"),
        pu(";"),
    ];
    let out = trait_set(&input).unwrap();
    // The fresh parameter comes after the user's lifetime parameter.
    let impl_prefix = vec![
        id("impl"),
        pu("<"),
        lt("de"),
        pu(","),
        id("_INNER"),
        pu(">"),
    ];
    let pos = out
        .windows(impl_prefix.len())
        .position(|w| w == impl_prefix.as_slice());
    assert!(pos.is_some());
}

#[test]
fn empty_batch() {
    let input: Vec<Token> = vec![];
    let out = trait_set(&input).unwrap();
    assert_eq!(out, Vec::<Token>::new());
}

#[test]
fn three_declarations_concatenate_in_order() {
    let mut input = vec![id("trait"), id("A"), pu("="), id("Send"), pu(";")];
    input.extend([id("trait"), id("B"), pu("="), id("Sync"), pu(";")]);
    input.extend([id("pub"), id("trait"), id("C"), pu("="), id("Unpin"), pu(";")]);

    let out = trait_set(&input).unwrap();
    let batch = parse(&input).unwrap();
    assert_eq!(batch.decls.len(), 3);
    let mut expected: Vec<Token> = Vec::new();
    for d in &batch.decls {
        expected.extend(d.render());
    }
    assert_eq!(out, expected);

    let mut by_hand = non_generic_fragment(vec![], "A", vec![id("Send")]);
    by_hand.extend(non_generic_fragment(vec![], "B", vec![id("Sync")]));
    by_hand.extend(non_generic_fragment(vec![id("pub")], "C", vec![id("Unpin")]));
    assert_eq!(out, by_hand);
}

#[test]
fn alias_composition_passes_earlier_name_through() {
    // pub trait ThreadSafe = Send + Sync;
    // pub trait ThreadSafeIterator = ThreadSafe + Iterator;
    let mut input = vec![
        id("pub"),
        id("trait"),
        id("ThreadSafe"),
        pu("="),
        id("Send"),
        pu("+"),
        id("Sync"),
        pu(";"),
    ];
    input.extend([
        id("pub"),
        id("trait"),
        id("ThreadSafeIterator"),
        pu("="),
        id("ThreadSafe"),
        pu("+"),
        id("Iterator"),
        pu(";"),
    ]);
    let batch = parse(&input).unwrap();
    assert_eq!(batch.decls.len(), 2);
    assert_eq!(batch.decls[1].bounds.len(), 2);
    assert_eq!(batch.decls[1].bounds[0].tokens, vec![id("ThreadSafe")]);
    assert_eq!(batch.decls[1].bounds[1].tokens, vec![id("Iterator")]);

    let out = trait_set(&input).unwrap();
    let mut expected = non_generic_fragment(
        vec![id("pub")],
        "ThreadSafe",
        vec![id("Send"), pu("+"), id("Sync")],
    );
    expected.extend(non_generic_fragment(
        vec![id("pub")],
        "ThreadSafeIterator",
        vec![id("ThreadSafe"), pu("+"), id("Iterator")],
    ));
    assert_eq!(out, expected);
}

#[test]
fn lifetime_bound_kept_in_order() {
    // pub(crate) trait Set = 'static + Send + Sync;
    let vis = vec![id("pub"), open(Delim::Paren), id("crate"), close(Delim::Paren)];
    let mut input = vis.clone();
    input.extend([
        id("trait"),
        id("Set"),
        pu("="),
        lt("static"),
        pu("+"),
        id("Send"),
        pu("+"),
        id("Sync"),
        pu(";"),
    ]);
    let batch = parse(&input).unwrap();
    assert_eq!(batch.decls[0].bounds.len(), 3);
    assert_eq!(batch.decls[0].bounds[0].tokens, vec![lt("static")]);
    let out = trait_set(&input).unwrap();
    let expected = non_generic_fragment(
        vis,
        "Set",
        vec![lt("static"), pu("+"), id("Send"), pu("+"), id("Sync")],
    );
    assert_eq!(out, expected);
}

#[test]
fn higher_rank_bound_passes_through_opaquely() {
    // pub trait Serde = Serialize + for<'de> Deserialize<'de>;
    let hrtb = vec![
        id("for"),
        pu("<"),
        lt("de"),
        pu(">"),
        id("Deserialize"),
        pu("<"),
        lt("de"),
        pu(">"),
    ];
    let mut input = vec![id("pub"), id("trait"), id("Serde"), pu("="), id("Serialize"), pu("+")];
    input.extend(hrtb.iter().cloned());
    input.push(pu(";"));
    let batch = parse(&input).unwrap();
    assert_eq!(batch.decls[0].bounds.len(), 2);
    assert_eq!(batch.decls[0].bounds[1].tokens, hrtb);
}

#[test]
fn doc_attributes_concatenate_newline_joined() {
    // #[doc = "a"] #[doc = "b"] trait D = Send;
    let input = vec![
        pu("#"),
        open(Delim::Bracket),
        id("doc"),
        pu("="),
        ls("a"),
        close(Delim::Bracket),
        pu("#"),
        open(Delim::Bracket),
        id("doc"),
        pu("="),
        ls("b"),
        close(Delim::Bracket),
        id("trait"),
        id("D"),
        pu("="),
        id("Send"),
        pu(";"),
    ];
    let batch = parse(&input).unwrap();
    assert_eq!(batch.decls[0].doc, Some("a\nb\n".to_string()));

    let out = trait_set(&input).unwrap();
    let mut expected = vec![
        pu("#"),
        open(Delim::Bracket),
        id("doc"),
        pu("="),
        ls("a\nb\n"),
        close(Delim::Bracket),
    ];
    expected.extend(non_generic_fragment(vec![], "D", vec![id("Send")]));
    assert_eq!(out, expected);
}

#[test]
fn join_doc_lines_two_entries() {
    let lines = vec!["a".to_string(), "b".to_string()];
    assert_eq!(
        trait_set::parse::join_doc_lines(&lines),
        Some("a\nb\n".to_string())
    );
    assert_eq!(trait_set::parse::join_doc_lines(&Vec::new()), None);
}

#[test]
fn non_doc_attribute_skipped_silently() {
    // #[derive(Clone)] trait F = Send;
    let input = vec![
        pu("#"),
        open(Delim::Bracket),
        id("derive"),
        open(Delim::Paren),
        id("Clone"),
        close(Delim::Paren),
        close(Delim::Bracket),
        id("trait"),
        id("F"),
        pu("="),
        id("Send"),
        pu(";"),
    ];
    let batch = parse(&input).unwrap();
    assert_eq!(batch.decls[0].doc, None);
    let out = trait_set(&input).unwrap();
    assert_eq!(out, non_generic_fragment(vec![], "F", vec![id("Send")]));
}

#[test]
fn empty_generic_list_renders_non_generic() {
    // trait F<> = Send;  — an empty parameter list behaves as no list.
    let input = vec![
        id("trait"),
        id("F"),
        pu("<"),
        pu(">"),
        pu("="),
        id("Send"),
        pu(";"),
    ];
    let batch = parse(&input).unwrap();
    assert!(batch.decls[0].generics.is_empty());
    let out = trait_set(&input).unwrap();
    assert_eq!(out, non_generic_fragment(vec![], "F", vec![id("Send")]));
}

#[test]
fn trailing_comma_in_generics_accepted() {
    let input = vec![
        id("trait"),
        id("F"),
        pu("<"),
        id("T"),
        pu(","),
        pu(">"),
        pu("="),
        id("Send"),
        pu(";"),
    ];
    let batch = parse(&input).unwrap();
    assert_eq!(batch.decls[0].generics.len(), 1);
    match &batch.decls[0].generics[0] {
        GenericParam::Type { name, bounds } => {
            assert_eq!(name, "T");
            assert!(bounds.is_empty());
        }
        _ => panic!("expected a type parameter"),
    }
}

#[test]
fn where_clause_rejected_with_fixed_message() {
    // trait Foo<T> where T: Clone = Send;
    let input = vec![
        id("trait"),
        id("Foo"),
        pu("<"),
        id("T"),
        pu(">"),
        id("where"),
        id("T"),
        pu(":"),
        id("Clone"),
        pu("="),
        id("Send"),
        pu(";"),
    ];
    let err = trait_set(&input).unwrap_err();
    assert_eq!(
        err,
        ParseError {
            pos: 5,
            kind: ErrKind::WhereClauseNotAllowed
        }
    );
    assert_eq!(err.message(), "Where clause is not allowed for trait alias");
}
