//! What the attributes accept.
//!
//! An attribute takes no arguments, and it does not go on an `async fn`: the
//! closure that the body moves into could not await. What an attribute
//! refuses is handed on to the compiler as it was written, behind an
//! invocation of `compile_error!` that holds the reason.

use vstd::prelude::*;
use crate::function::FunctionItem;
use crate::token::{group, ident, joint, punct, string, toks, Delimiter, Tok, Token};

verus! {

/// The attributes that the library stands behind.
#[derive(Clone, Copy, Debug, PartialEq, Eq, Structural)]
pub enum Attr {
    /// `#[no_panic]`: the build fails unless the function is shown not to
    /// unwind.
    NoPanic,
    /// `#[abort_on_panic]`: the process ends where the function would unwind.
    AbortOnPanic,
    /// `#[may_panic]`: the function is allowed to unwind.
    MayPanic,
}

/// Why an attribute refuses what it was put on.
#[derive(Clone, Copy, Debug, PartialEq, Eq, Structural)]
pub enum ParseError {
    /// The attribute was given arguments.
    UnexpectedToken,
    /// The attribute was put on an `async fn`.
    AsyncFn(Attr),
}

/// The name of an attribute.
pub open spec fn attr_name(attr: Attr) -> Seq<char> {
    match attr {
        Attr::NoPanic => "no_panic"@,
        Attr::AbortOnPanic => "abort_on_panic"@,
        Attr::MayPanic => "may_panic"@,
    }
}

/// The message of an error.
pub open spec fn message_of(e: ParseError) -> Seq<char> {
    match e {
        ParseError::UnexpectedToken => "unexpected token"@,
        ParseError::AsyncFn(attr) => attr_name(attr) + " attribute on async fn is not supported"@,
    }
}

/// The error with which `attr` refuses a function, if it refuses it:
/// arguments are looked at first, then `async`.
pub open spec fn refusal(attr: Attr, args: Seq<Tok>, asyncness: bool) -> Option<ParseError> {
    if args.len() > 0 {
        Some(ParseError::UnexpectedToken)
    } else if asyncness {
        Some(ParseError::AsyncFn(attr))
    } else {
        None
    }
}

/// `::core::compile_error! { "message" }`
pub open spec fn compile_error_toks(message: Seq<char>) -> Seq<Tok> {
    seq![
        Tok::Punct(':', true),
        Tok::Punct(':', false),
        Tok::Ident("core"@),
        Tok::Punct(':', true),
        Tok::Punct(':', false),
        Tok::Ident("compile_error"@),
        Tok::Punct('!', false),
        Tok::Group(Delimiter::Brace, seq![Tok::Str(message)]),
    ]
}

impl Attr {
    /// The name of the attribute.
    pub fn name(&self) -> (name: &'static str)
        ensures
            name@ == attr_name(*self),
    {
        match self {
            Attr::NoPanic => "no_panic",
            Attr::AbortOnPanic => "abort_on_panic",
            Attr::MayPanic => "may_panic",
        }
    }
}

impl ParseError {
    /// The message of the error.
    pub fn message(&self) -> (message: String)
        ensures
            message@ == message_of(*self),
    {
        match self {
            ParseError::UnexpectedToken => String::from_str("unexpected token"),
            ParseError::AsyncFn(attr) => {
                let mut message = String::from_str(attr.name());
                message.append(" attribute on async fn is not supported");
                message
            },
        }
    }
}

impl ParseError {
    /// The tokens that make the compiler report the error.
    pub fn to_compile_error(&self) -> (out: Vec<Token>)
        ensures
            toks(out@) == compile_error_toks(message_of(*self)),
    {
        broadcast use crate::token::group_toks;

        let message = self.message();
        let mut inside: Vec<Token> = Vec::new();
        inside.push(string(message.as_str()));
        assert(toks(inside@) =~= seq![Tok::Str(message@)]);
        let mut out: Vec<Token> = Vec::new();
        out.push(joint(':'));
        out.push(punct(':'));
        out.push(ident("core"));
        out.push(joint(':'));
        out.push(punct(':'));
        out.push(ident("compile_error"));
        out.push(punct('!'));
        out.push(group(Delimiter::Brace, inside));
        assert(toks(out@) =~= compile_error_toks(message_of(*self)));
        out
    }
}

/// Accepts `function` for `attr`, or says why not. An accepted function is
/// handed back as it came.
pub fn parse(attr: Attr, args: &Vec<Token>, function: FunctionItem) -> (result: Result<
    FunctionItem,
    ParseError,
>)
    ensures
        match refusal(attr, toks(args@), function@.sig.asyncness) {
            Some(e) => result == Err::<FunctionItem, ParseError>(e),
            None => result == Ok::<FunctionItem, ParseError>(function),
        },
{
    if args.len() > 0 {
        return Err(ParseError::UnexpectedToken);
    }
    if function.sig.asyncness {
        return Err(ParseError::AsyncFn(attr));
    }
    Ok(function)
}

} // verus!
