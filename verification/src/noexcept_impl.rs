//! The attributes `#[abort_on_panic]` and `#[may_panic]`.

use vstd::prelude::*;
use crate::expand::{expand, expansion, Sentinel, SentinelView};
use crate::function::{item_toks, FunctionItem, Instrumented};
use crate::parse::{parse, refusal, Attr, ParseError};
use crate::token::{toks, Token};

verus! {

/// Instruments `function` so that the process ends where it would unwind.
pub fn expand_abort_on_panic(function: FunctionItem) -> (out: Instrumented)
    ensures
        out@ == expansion(function@, SentinelView::Abort),
{
    expand(function, Sentinel::Abort)
}

/// The attribute `#[abort_on_panic]`: the tokens of the instrumented
/// function, or the reason why the attribute refuses `input`.
pub fn abort_on_panic(args: &Vec<Token>, input: FunctionItem) -> (result: Result<
    Vec<Token>,
    ParseError,
>)
    ensures
        match refusal(Attr::AbortOnPanic, toks(args@), input@.sig.asyncness) {
            Some(e) => result == Err::<Vec<Token>, ParseError>(e),
            None => result is Ok && toks(result->Ok_0@) == item_toks(
                expansion(input@, SentinelView::Abort),
            ),
        },
{
    match parse(Attr::AbortOnPanic, args, input) {
        Ok(function) => Ok(expand_abort_on_panic(function).to_tokens()),
        Err(e) => Err(e),
    }
}

/// The attribute `#[may_panic]`: the function is rewritten as under the other
/// attributes, but gets no guard.
pub fn may_panic(args: &Vec<Token>, input: FunctionItem) -> (result: Result<
    Vec<Token>,
    ParseError,
>)
    ensures
        match refusal(Attr::MayPanic, toks(args@), input@.sig.asyncness) {
            Some(e) => result == Err::<Vec<Token>, ParseError>(e),
            None => result is Ok && toks(result->Ok_0@) == item_toks(
                expansion(input@, SentinelView::Absent),
            ),
        },
{
    match parse(Attr::MayPanic, args, input) {
        Ok(function) => Ok(expand(function, Sentinel::Absent).to_tokens()),
        Err(e) => Err(e),
    }
}

} // verus!
