//! Token trees: the plain data on which the instrumentation works.
//!
//! A function reaches this library as trees of tokens and leaves it as trees of
//! tokens. Every contract is stated over [`Tok`], the mathematical value of a
//! [`Token`], and over sequences of them.

use vstd::prelude::*;

verus! {

/// How a group of tokens is delimited.
#[derive(Clone, Copy, Debug, PartialEq, Eq, Structural)]
pub enum Delimiter {
    /// `( .. )`
    Parenthesis,
    /// `{ .. }`
    Brace,
    /// `[ .. ]`
    Bracket,
    /// No visible delimiter: the group only keeps its tokens together.
    Invisible,
}

/// One token tree.
#[derive(Debug, PartialEq, Eq)]
pub enum Token {
    /// An identifier or a keyword.
    Ident(String),
    /// One punctuation character. The flag says that the next token is a
    /// punctuation character that forms one operator with this one.
    Punct(char, bool),
    /// A literal, as its source text.
    Literal(String),
    /// A string literal, by its value.
    Str(String),
    /// A delimited sequence of token trees.
    Group(Delimiter, Vec<Token>),
}

/// The mathematical value of a [`Token`].
pub enum Tok {
    Ident(Seq<char>),
    Punct(char, bool),
    Literal(Seq<char>),
    Str(Seq<char>),
    Group(Delimiter, Seq<Tok>),
}

/// The value of one token.
pub open spec fn tok_of(t: Token) -> Tok
    decreases t, 0nat,
{
    match t {
        Token::Ident(name) => Tok::Ident(name@),
        Token::Punct(c, joint) => Tok::Punct(c, joint),
        Token::Literal(text) => Tok::Literal(text@),
        Token::Str(value) => Tok::Str(value@),
        Token::Group(d, inner) => Tok::Group(d, toks(inner@)),
    }
}

/// The values of a sequence of tokens, in order.
pub open spec fn toks(ts: Seq<Token>) -> Seq<Tok>
    decreases ts, 1nat,
{
    Seq::new(
        ts.len(),
        |i: int|
            if 0 <= i < ts.len() {
                tok_of(ts[i])
            } else {
                Tok::Punct(' ', false)
            },
    )
}

impl View for Token {
    type V = Tok;

    open spec fn view(&self) -> Tok {
        tok_of(*self)
    }
}

/// `toks` distributes over `push`.
pub broadcast proof fn toks_push(ts: Seq<Token>, t: Token)
    ensures
        #[trigger] toks(ts.push(t)) == toks(ts).push(t@),
{
    assert(toks(ts.push(t)) =~= toks(ts).push(t@));
}

/// `toks` distributes over concatenation.
pub broadcast proof fn toks_add(a: Seq<Token>, b: Seq<Token>)
    ensures
        #[trigger] toks(a + b) == toks(a) + toks(b),
{
    assert(toks(a + b) =~= toks(a) + toks(b));
}

/// A sequence without tokens has no values.
pub broadcast proof fn toks_empty(ts: Seq<Token>)
    requires
        ts.len() == 0,
    ensures
        #[trigger] toks(ts) == Seq::<Tok>::empty(),
{
    assert(toks(ts) =~= Seq::<Tok>::empty());
}

/// `toks` keeps the length and maps index by index.
pub broadcast proof fn toks_index(ts: Seq<Token>, i: int)
    requires
        0 <= i < ts.len(),
    ensures
        toks(ts).len() == ts.len(),
        #[trigger] toks(ts)[i] == ts[i]@,
{
}

pub broadcast group group_toks {
    toks_push,
    toks_add,
    toks_empty,
    toks_index,
}

impl Clone for Token {
    fn clone(&self) -> (t: Token)
        ensures
            t@ == self@,
        decreases self,
    {
        match self {
            Token::Ident(name) => Token::Ident(name.clone()),
            Token::Punct(c, joint) => Token::Punct(*c, *joint),
            Token::Literal(text) => Token::Literal(text.clone()),
            Token::Str(value) => Token::Str(value.clone()),
            Token::Group(d, inner) => {
                let mut copy: Vec<Token> = Vec::new();
                let mut i: usize = 0;
                while i < inner.len()
                    invariant
                        *self is Group,
                        self->Group_1 == *inner,
                        i <= inner.len(),
                        copy@.len() == i,
                        forall|j: int| 0 <= j < i ==> copy@[j]@ == inner@[j]@,
                    decreases inner.len() - i,
                {
                    proof {
                        assert(decreases_to!(*self => self->Group_1));
                        assert(decreases_to!(self->Group_1 => self->Group_1[i as int]));
                    }
                    copy.push(inner[i].clone());
                    i += 1;
                }
                assert(toks(copy@) =~= toks(inner@));
                Token::Group(*d, copy)
            },
        }
    }
}

/// A copy of a sequence of tokens.
pub fn clone_tokens(ts: &Vec<Token>) -> (copy: Vec<Token>)
    ensures
        toks(copy@) == toks(ts@),
{
    let mut copy: Vec<Token> = Vec::new();
    let mut i: usize = 0;
    while i < ts.len()
        invariant
            i <= ts.len(),
            copy@.len() == i,
            forall|j: int| 0 <= j < i ==> copy@[j]@ == ts@[j]@,
        decreases ts.len() - i,
    {
        copy.push(ts[i].clone());
        i += 1;
    }
    assert(toks(copy@) =~= toks(ts@));
    copy
}

/// Appends the tokens of `more` to `out`.
pub fn append_tokens(out: &mut Vec<Token>, more: Vec<Token>)
    ensures
        toks(final(out)@) == toks(old(out)@) + toks(more@),
{
    let mut rest = more;
    out.append(&mut rest);
    proof {
        toks_add(old(out)@, more@);
    }
}

/// The identifier or keyword `name`.
pub fn ident(name: &str) -> (t: Token)
    ensures
        t@ == Tok::Ident(name@),
{
    Token::Ident(String::from_str(name))
}

/// The punctuation character `c`, not joined to what follows.
pub fn punct(c: char) -> (t: Token)
    ensures
        t@ == Tok::Punct(c, false),
{
    Token::Punct(c, false)
}

/// The punctuation character `c`, joined to the punctuation that follows.
pub fn joint(c: char) -> (t: Token)
    ensures
        t@ == Tok::Punct(c, true),
{
    Token::Punct(c, true)
}

/// The string literal whose value is `value`.
pub fn string(value: &str) -> (t: Token)
    ensures
        t@ == Tok::Str(value@),
{
    Token::Str(String::from_str(value))
}

/// The group of `inner` between the delimiters `d`.
pub fn group(d: Delimiter, inner: Vec<Token>) -> (t: Token)
    ensures
        t@ == Tok::Group(d, toks(inner@)),
{
    Token::Group(d, inner)
}

/// Whether `t` is the identifier `name`.
pub fn is_ident(t: &Token, name: &str) -> (b: bool)
    ensures
        b == (t@ == Tok::Ident(name@)),
{
    match t {
        Token::Ident(s) => {
            let wanted = String::from_str(name);
            *s == wanted
        },
        _ => false,
    }
}

} // verus!
