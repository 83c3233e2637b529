//! A token tree, as a procedural macro receives it, held as plain values.
use vstd::prelude::*;

verus! {

/// The delimiter around a token group.
#[derive(Clone, Copy, PartialEq, Eq, Debug, Structural)]
pub enum Delimiter {
    /// `( ... )`
    Parenthesis,
    /// `{ ... }`
    Brace,
    /// `[ ... ]`
    Bracket,
    /// A group without visible delimiters.
    Invisible,
}

/// One token tree: an identifier, a punctuation character, a literal, or a
/// delimited group that holds a stream of further token trees.
pub enum Token {
    Ident(String),
    Punct(char),
    Literal(String),
    /// `text` is the printed form of `stream`, as the compiler renders it.
    Group { delimiter: Delimiter, stream: Vec<Token>, text: String },
}

/// The text of an identifier token (empty for any other token).
pub open spec fn ident_text(t: Token) -> Seq<char> {
    match t {
        Token::Ident(s) => s@,
        _ => Seq::empty(),
    }
}

/// The token is the punctuation character `c`.
pub open spec fn is_punct(t: Token, c: char) -> bool {
    t matches Token::Punct(p) && p == c
}

/// The token is the identifier `name`.
pub open spec fn is_ident_named(t: Token, name: Seq<char>) -> bool {
    t is Ident && ident_text(t) == name
}

/// The token is a group delimited by braces.
pub open spec fn is_brace_group(t: Token) -> bool {
    t matches Token::Group { delimiter, .. } && delimiter == Delimiter::Brace
}

/// The token stream inside a group (empty for any other token).
pub open spec fn group_stream(t: Token) -> Seq<Token> {
    match t {
        Token::Group { stream, .. } => stream@,
        _ => Seq::empty(),
    }
}

/// The printed text of a group (empty for any other token).
pub open spec fn group_text(t: Token) -> Seq<char> {
    match t {
        Token::Group { text, .. } => text@,
        _ => Seq::empty(),
    }
}

/// Whether a string holds exactly the characters of `lit`.
pub fn text_is(s: &String, lit: &str) -> (r: bool)
    ensures
        r == (s@ == lit@),
{
    crate::names::same_text(s.as_str(), lit)
}

} // verus!
