use vstd::prelude::*;

use crate::text::{char_str, same_text};
use vstd::string::StringExecFns;
use vstd::string::StringSliceAdditionalSpecFns;

verus! {

/// The bracket kind around a token group.
#[derive(Debug)]
pub enum Delimiter {
    Parenthesis,
    Brace,
    Bracket,
    /// A group with no visible delimiters.
    Invisible,
}

/// Whether a punctuation character is joined to the one that follows it (as
/// in `->` or `::`).
#[derive(Debug)]
pub enum Spacing {
    Alone,
    Joint,
}

/// One token of a token stream; groups hold their inner tokens.
#[derive(Debug)]
pub enum TokenTree {
    Group(Delimiter, Vec<TokenTree>),
    Ident(String),
    Punct(char, Spacing),
    Literal(String),
}

/// The text a token renders to: an identifier or literal as written, a
/// punctuation character alone, and a group as its delimiters around the text
/// of its contents (braces padded with one space inside when not empty; an
/// invisible group as its contents alone).
pub open spec fn token_text(t: TokenTree) -> Seq<char>
    decreases t,
{
    match t {
        TokenTree::Ident(s) => s@,
        TokenTree::Literal(s) => s@,
        TokenTree::Punct(c, _) => seq![c],
        TokenTree::Group(d, inner) => {
            let body = stream_text(inner@);
            match d {
                Delimiter::Parenthesis => seq!['('] + body + seq![')'],
                Delimiter::Bracket => seq!['['] + body + seq![']'],
                Delimiter::Brace => if inner@.len() == 0 {
                    seq!['{', ' ', '}']
                } else {
                    seq!['{', ' '] + body + seq![' ', '}']
                },
                Delimiter::Invisible => body,
            }
        },
    }
}

/// What stands between a token and the next one in a rendered stream: nothing
/// after a joint punctuation character, else one space.
pub open spec fn separator_after(t: TokenTree) -> Seq<char> {
    match t {
        TokenTree::Punct(_, Spacing::Joint) => Seq::empty(),
        _ => seq![' '],
    }
}

/// The text a token sequence renders to.
pub open spec fn stream_text(ts: Seq<TokenTree>) -> Seq<char>
    decreases ts,
{
    if ts.len() == 0 {
        Seq::empty()
    } else if ts.len() == 1 {
        token_text(ts[0])
    } else {
        stream_text(ts.drop_last()) + separator_after(ts[ts.len() - 2]) + token_text(ts.last())
    }
}

/// Whether the text of a token is `e`.
pub open spec fn token_is_text(t: TokenTree, e: Seq<char>) -> bool {
    token_text(t) == e
}

pub open spec fn spec_opening_char(d: Delimiter) -> char {
    match d {
        Delimiter::Parenthesis => '(',
        Delimiter::Brace => '{',
        Delimiter::Bracket => '[',
        Delimiter::Invisible => 'Ø',
    }
}

/// Whether `tt` is the punctuation character `c`.
pub fn is_punct(tt: &TokenTree, c: char) -> (r: bool)
    ensures
        r == (tt matches TokenTree::Punct(p, _) && p == c),
{
    match tt {
        TokenTree::Punct(p, _) => *p == c,
        _ => false,
    }
}

/// The opening character of a delimiter (`Ø` for an invisible group).
pub fn delimiter_opening_char(delimiter: Delimiter) -> (r: char)
    ensures
        r == spec_opening_char(delimiter),
{
    match delimiter {
        Delimiter::Parenthesis => '(',
        Delimiter::Brace => '{',
        Delimiter::Bracket => '[',
        Delimiter::Invisible => 'Ø',
    }
}

/// The text `t` renders to.
pub fn token_to_text(t: &TokenTree) -> (r: String)
    ensures
        r@ == token_text(*t),
    decreases t,
{
    match t {
        TokenTree::Ident(s) => s.clone(),
        TokenTree::Literal(s) => s.clone(),
        TokenTree::Punct(c, _) => {
            let mut r = String::new();
            r.append(char_str(*c).as_str());
            r
        },
        TokenTree::Group(d, inner) => {
            let body = stream_to_text(inner);
            let mut r = String::new();
            match d {
                Delimiter::Parenthesis => {
                    r.append("(");
                    r.append(body.as_str());
                    r.append(")");
                },
                Delimiter::Bracket => {
                    r.append("[");
                    r.append(body.as_str());
                    r.append("]");
                },
                Delimiter::Brace => {
                    if inner.len() == 0 {
                        r.append("{ }");
                    } else {
                        r.append("{ ");
                        r.append(body.as_str());
                        r.append(" }");
                    }
                },
                Delimiter::Invisible => {
                    r.append(body.as_str());
                },
            }
            proof {
                reveal_strlit("(");
                reveal_strlit(")");
                reveal_strlit("[");
                reveal_strlit("]");
                reveal_strlit("{ }");
                reveal_strlit("{ ");
                reveal_strlit(" }");
                assert("{ }"@ =~= seq!['{', ' ', '}']);
                assert("{ "@ =~= seq!['{', ' ']);
                assert(" }"@ =~= seq![' ', '}']);
                assert("("@ =~= seq!['(']);
                assert(")"@ =~= seq![')']);
                assert("["@ =~= seq!['[']);
                assert("]"@ =~= seq![']']);
            }
            r
        },
    }
}

/// The text a token sequence renders to.
pub fn stream_to_text(ts: &Vec<TokenTree>) -> (r: String)
    ensures
        r@ == stream_text(ts@),
    decreases ts,
{
    let mut out = String::new();
    let mut i: usize = 0;
    while i < ts.len()
        invariant
            i <= ts@.len(),
            out@ == stream_text(ts@.take(i as int)),
        decreases ts@.len() - i,
    {
        proof {
            assert(ts@.take(i + 1).drop_last() =~= ts@.take(i as int));
            assert(ts@.take(i + 1).last() == ts@[i as int]);
            vstd::std_specs::vec::axiom_vec_index_decreases(*ts, i as int);
        }
        if i > 0 {
            let joint = match &ts[i - 1] {
                TokenTree::Punct(_, Spacing::Joint) => true,
                _ => false,
            };
            if !joint {
                out.append(" ");
            }
            proof {
                reveal_strlit(" ");
                assert(" "@ =~= seq![' ']);
                assert(ts@.take(i + 1)[i - 1] == ts@[i - 1]);
            }
        }
        let t = token_to_text(&ts[i]);
        out.append(t.as_str());
        i = i + 1;
    }
    assert(ts@.take(i as int) =~= ts@);
    out
}

/// Whether the text of `t` is `expected`.
pub fn token_text_is(t: &TokenTree, expected: &str) -> (r: bool)
    ensures
        r == token_is_text(*t, expected@),
{
    let text = token_to_text(t);
    same_text(&text, expected)
}

/// Whether `path` is exactly one token whose text is `expected`.
pub fn path_is_single(path: &[TokenTree], expected: &str) -> (r: bool)
    ensures
        r == (path@.len() == 1 && token_is_text(path@[0], expected@)),
{
    path.len() == 1 && token_text_is(&path[0], expected)
}

/// Whether the last token of `path` has the text `expected`.
pub fn path_ends_with(path: &[TokenTree], expected: &str) -> (r: bool)
    ensures
        r == (path@.len() > 0 && token_is_text(path@.last(), expected@)),
{
    path.len() > 0 && token_text_is(&path[path.len() - 1], expected)
}

} // verus!

verus! {

/// The UTF-8 bytes of `s` followed by a NUL byte, as a C string literal holds them.
pub fn cstr_bytes(s: &str) -> (r: Vec<u8>)
    ensures
        r@ == s.spec_bytes().push(0u8),
{
    let bytes = s.as_bytes();
    let mut out: Vec<u8> = Vec::new();
    let mut i: usize = 0;
    while i < bytes.len()
        invariant
            i <= bytes@.len(),
            bytes@ == s.spec_bytes(),
            out@ == bytes@.take(i as int),
        decreases bytes@.len() - i,
    {
        out.push(bytes[i]);
        assert(out@ =~= bytes@.take(i + 1));
        i = i + 1;
    }
    assert(bytes@.take(i as int) =~= bytes@);
    out.push(0u8);
    out
}

} // verus!
