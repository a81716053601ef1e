//! Instruments a function so that the build shows whether it can panic.
//!
//! A function is handed over as plain data: its attributes, its signature and
//! its body, with the tokens that the instrumentation does not read kept as
//! they are. What comes back is the tokens of a function with the same name,
//! visibility, generics and return type, whose body runs the old body inside a
//! closure, under a guard.

pub mod decimal;
pub mod token;
pub mod types;
pub mod rebind;
pub mod function;
pub mod normalize;
pub mod expand;
pub mod parse;
pub mod noexcept;
pub mod noexcept_impl;

pub use crate::noexcept_impl::{abort_on_panic, expand_abort_on_panic, may_panic};

use vstd::prelude::*;
use crate::expand::{diagnostic_message, expand, expansion, link_name, Encoding, Sentinel, SentinelView};
use crate::function::{item_toks, FunctionItem, Instrumented};
use crate::parse::{parse, refusal, Attr, ParseError};
use crate::token::{toks, Token};

verus! {

/// Instruments `function` so that the build fails to link unless the function
/// is shown not to unwind. The link name is the message that names the
/// function.
pub fn expand_no_panic(function: FunctionItem) -> (out: Instrumented)
    ensures
        out@ == expansion(
            function@,
            SentinelView::Link(diagnostic_message(function@.sig.ident)),
        ),
{
    let message = link_name(Encoding::Message, function.sig.ident.as_str());
    expand(function, Sentinel::Link(message))
}

/// The attribute `#[no_panic]`: the tokens of the instrumented function, or
/// the reason why the attribute refuses `input`.
pub fn no_panic(args: &Vec<Token>, input: FunctionItem) -> (result: Result<Vec<Token>, ParseError>)
    ensures
        match refusal(Attr::NoPanic, toks(args@), input@.sig.asyncness) {
            Some(e) => result == Err::<Vec<Token>, ParseError>(e),
            None => result is Ok && toks(result->Ok_0@) == item_toks(
                expansion(input@, SentinelView::Link(diagnostic_message(input@.sig.ident))),
            ),
        },
{
    match parse(Attr::NoPanic, args, input) {
        Ok(function) => Ok(expand_no_panic(function).to_tokens()),
        Err(e) => Err(e),
    }
}

} // verus!
