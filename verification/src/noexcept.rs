//! What the instrumented function needs when it runs under
//! `#[abort_on_panic]`.
//!
//! The guard of that attribute is a value without data. The instrumented
//! function makes it before it calls the closure and forgets it after. Where
//! the closure unwinds instead, the guard is dropped, and what dropping it
//! does is to panic once more: a panic on top of an unwinding one ends the
//! process. Nothing in this library panics; it says with which message the
//! guard does.

use vstd::prelude::*;

verus! {

/// The guard.
#[derive(Clone, Copy, Debug, PartialEq, Eq, Structural)]
pub struct AbortOnDrop;

impl AbortOnDrop {
    /// What dropping the guard does: it panics with the message returned
    /// here.
    pub fn drop(&mut self) -> (message: &'static str)
        ensures
            message@ == abort_message(),
    {
        abort()
    }
}

/// The message of the panic that ends the process.
pub open spec fn abort_message() -> Seq<char> {
    "panic inside of #[abort_on_panic]"@
}

/// The message of the panic that ends the process.
pub fn abort() -> (message: &'static str)
    ensures
        message@ == abort_message(),
{
    "panic inside of #[abort_on_panic]"
}

} // verus!
