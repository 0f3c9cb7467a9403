//! Every diagnostic kind, each provoked by a smallest offending input;
//! the first error aborts the whole batch with no output.

use trait_set::parse::{parse, ErrKind, ParseError};
use trait_set::token::{Delim, Token};
use trait_set::trait_set;

fn id(s: &str) -> Token {
    Token::Ident(s.to_string())
}

fn pu(s: &str) -> Token {
    Token::Punct(s.to_string())
}

fn err_of(input: &Vec<Token>) -> ParseError {
    let r = trait_set(input);
    assert!(r.is_err());
    r.unwrap_err()
}

#[test]
fn missing_trait_keyword() {
    let input = vec![id("pub"), id("foo"), pu("="), id("Send"), pu(";")];
    assert_eq!(
        err_of(&input),
        ParseError {
            pos: 1,
            kind: ErrKind::ExpectedTrait
        }
    );
}

#[test]
fn missing_alias_name() {
    let input = vec![id("trait"), pu("="), id("Send"), pu(";")];
    assert_eq!(
        err_of(&input),
        ParseError {
            pos: 1,
            kind: ErrKind::ExpectedIdent
        }
    );
}

#[test]
fn missing_assignment_token() {
    let input = vec![id("trait"), id("Foo"), id("Send"), pu(";")];
    assert_eq!(
        err_of(&input),
        ParseError {
            pos: 2,
            kind: ErrKind::ExpectedEq
        }
    );
}

#[test]
fn missing_terminator() {
    let input = vec![id("trait"), id("Foo"), pu("="), id("Send")];
    assert_eq!(
        err_of(&input),
        ParseError {
            pos: 4,
            kind: ErrKind::ExpectedSemicolon
        }
    );
}

#[test]
fn empty_bound_list() {
    let input = vec![id("trait"), id("Foo"), pu("="), pu(";")];
    assert_eq!(
        err_of(&input),
        ParseError {
            pos: 3,
            kind: ErrKind::ExpectedBound
        }
    );
}

#[test]
fn empty_bound_after_plus() {
    let input = vec![id("trait"), id("Foo"), pu("="), id("Send"), pu("+"), pu(";")];
    assert_eq!(
        err_of(&input),
        ParseError {
            pos: 5,
            kind: ErrKind::ExpectedBound
        }
    );
}

#[test]
fn empty_inline_bound() {
    // trait Foo<T:> = Send;
    let input = vec![
        id("trait"),
        id("Foo"),
        pu("<"),
        id("T"),
        pu(":"),
        pu(">"),
        pu("="),
        id("Send"),
        pu(";"),
    ];
    assert_eq!(
        err_of(&input),
        ParseError {
            pos: 5,
            kind: ErrKind::ExpectedBound
        }
    );
}

#[test]
fn generic_parameter_expected() {
    let input = vec![
        id("trait"),
        id("Foo"),
        pu("<"),
        pu("+"),
        pu(">"),
        pu("="),
        id("Send"),
        pu(";"),
    ];
    assert_eq!(
        err_of(&input),
        ParseError {
            pos: 3,
            kind: ErrKind::ExpectedGenericParam
        }
    );
}

#[test]
fn generic_separator_expected() {
    let input = vec![
        id("trait"),
        id("Foo"),
        pu("<"),
        id("T"),
        id("U"),
        pu(">"),
        pu("="),
        id("Send"),
        pu(";"),
    ];
    assert_eq!(
        err_of(&input),
        ParseError {
            pos: 4,
            kind: ErrKind::ExpectedGenericSep
        }
    );
}

#[test]
fn unexpected_closing_delimiter() {
    let input = vec![
        id("trait"),
        id("Foo"),
        pu("="),
        Token::Close(Delim::Paren),
        pu(";"),
    ];
    assert_eq!(
        err_of(&input),
        ParseError {
            pos: 3,
            kind: ErrKind::UnexpectedClose
        }
    );
}

#[test]
fn attribute_without_bracketed_body() {
    let input = vec![pu("#"), id("trait"), id("Foo"), pu("="), id("Send"), pu(";")];
    assert_eq!(
        err_of(&input),
        ParseError {
            pos: 0,
            kind: ErrKind::ExpectedAttrBody
        }
    );
}

#[test]
fn unclosed_attribute_group() {
    let input = vec![pu("#"), Token::Open(Delim::Bracket), id("derive")];
    assert_eq!(
        err_of(&input),
        ParseError {
            pos: 3,
            kind: ErrKind::UnclosedGroup
        }
    );
}

#[test]
fn where_clause_without_generics_also_rejected() {
    let input = vec![
        id("trait"),
        id("Foo"),
        id("where"),
        id("Self"),
        pu(":"),
        id("Clone"),
        pu("="),
        id("Send"),
        pu(";"),
    ];
    assert_eq!(
        err_of(&input),
        ParseError {
            pos: 2,
            kind: ErrKind::WhereClauseNotAllowed
        }
    );
}

#[test]
fn first_error_aborts_later_declarations() {
    // A valid declaration followed by a broken one: no partial output.
    let input = vec![
        id("trait"),
        id("Ok1"),
        pu("="),
        id("Send"),
        pu(";"),
        id("trait"),
        pu("="),
        id("Sync"),
        pu(";"),
    ];
    let r = trait_set(&input);
    assert_eq!(
        r,
        Err(ParseError {
            pos: 6,
            kind: ErrKind::ExpectedIdent
        })
    );
}

#[test]
fn messages_are_fixed_per_kind() {
    let e = ParseError {
        pos: 0,
        kind: ErrKind::ExpectedIdent,
    };
    assert_eq!(e.message(), "expected identifier");
    let w = ParseError {
        pos: 0,
        kind: ErrKind::WhereClauseNotAllowed,
    };
    assert_eq!(w.message(), "Where clause is not allowed for trait alias");
    let s = ParseError {
        pos: 0,
        kind: ErrKind::ExpectedSemicolon,
    };
    assert_eq!(s.message(), "expected `;`");
}

#[test]
fn error_output_is_no_output() {
    let input = vec![id("trait")];
    let r = parse(&input);
    assert!(r.is_err());
}
