//! The parameters of the instrumented function.
//!
//! The body moves into a closure, which takes no parameters of its own. So
//! every typed parameter gets a made-up name in the signature, and the first
//! statements of the closure bind the pattern that the parameter had to that
//! name. The receiver cannot be renamed in the signature: it stays, and the
//! closure binds `__self` to it.

use vstd::prelude::*;
use crate::decimal::{decimal, decimal_is_injective, push_decimal};
use crate::function::{pattern_tokens, pattern_toks, views, Param, ParamView, Pattern, PatternView};
use crate::token::{append_tokens, clone_tokens, ident, punct, toks, Tok, Token};

verus! {

/// The made-up name of the parameter at position `i`.
pub open spec fn numbered(i: nat) -> Seq<char> {
    "__arg"@ + decimal(i)
}

/// Parameters at different positions get different names.
pub proof fn numbered_is_injective(i: nat, j: nat)
    requires
        numbered(i) == numbered(j),
    ensures
        i == j,
{
    let prefix = "__arg"@;
    assert(numbered(i).subrange(prefix.len() as int, numbered(i).len() as int) =~= decimal(i));
    assert(numbered(j).subrange(prefix.len() as int, numbered(j).len() as int) =~= decimal(j));
    decimal_is_injective(i, j);
}

/// The made-up name of the parameter at position `i`.
pub fn numbered_name(i: usize) -> (name: String)
    ensures
        name@ == numbered(i as nat),
{
    let mut name = String::from_str("__arg");
    push_decimal(&mut name, i);
    name
}

/// Whether a pattern is the identifier `self`.
pub open spec fn is_self_pattern(p: PatternView) -> bool {
    p matches PatternView::Ident { name, .. } && name == "self"@
}

/// Whether a parameter is the receiver: written as one, or a typed parameter
/// whose pattern is the identifier `self`.
pub open spec fn is_receiver(p: ParamView) -> bool {
    match p {
        ParamView::Typed { pattern, .. } => is_self_pattern(pattern),
        ParamView::Receiver { .. } => true,
    }
}

/// Whether one of the parameters is the receiver.
pub open spec fn has_receiver(inputs: Seq<ParamView>) -> bool {
    exists|i: int| 0 <= i < inputs.len() && is_receiver(#[trigger] inputs[i])
}

/// Whether a receiver is taken by value and declared `mut`.
pub open spec fn is_mutable_value(p: ParamView) -> bool {
    match p {
        ParamView::Typed { pattern, .. } => pattern matches PatternView::Ident { mutable, .. }
            && mutable,
        ParamView::Receiver { reference, mutable, .. } => !reference && mutable,
    }
}

/// The parameter at position `i` as the instrumented function declares it.
///
/// A typed parameter keeps its attributes and its type, and takes the pattern
/// `mut __arg<i>`. The receiver stays as it is, except that one taken by value
/// loses its `mut`: the body reaches it through `__self` only.
pub open spec fn normalized(p: ParamView, i: nat) -> ParamView {
    match p {
        ParamView::Typed { attrs, pattern, ty } => if is_self_pattern(pattern) {
            ParamView::Typed {
                attrs,
                pattern: PatternView::Ident {
                    by_ref: pattern->by_ref,
                    mutable: false,
                    name: pattern->name,
                    subpattern: pattern->subpattern,
                },
                ty,
            }
        } else {
            ParamView::Typed {
                attrs,
                pattern: PatternView::Ident {
                    by_ref: false,
                    mutable: true,
                    name: numbered(i),
                    subpattern: Seq::empty(),
                },
                ty,
            }
        },
        ParamView::Receiver { attrs, reference, lifetime, mutable, ty } => ParamView::Receiver {
            attrs,
            reference,
            lifetime,
            mutable: reference && mutable,
            ty,
        },
    }
}

/// The parameters as the instrumented function declares them.
pub open spec fn normalized_all(inputs: Seq<ParamView>) -> Seq<ParamView> {
    Seq::new(inputs.len(), |i: int| normalized(inputs[i], i as nat))
}

/// The statement that gives the parameter at position `i` back to the body:
/// `let <pattern> = __arg<i>;` for a typed parameter, and `let __self = self;`
/// for the receiver, with `mut` where it was taken by value and declared so.
pub open spec fn rebinding(p: ParamView, i: nat) -> Seq<Tok> {
    if is_receiver(p) {
        seq![Tok::Ident("let"@)] + (if is_mutable_value(p) {
            seq![Tok::Ident("mut"@)]
        } else {
            Seq::empty()
        }) + seq![
            Tok::Ident("__self"@),
            Tok::Punct('=', false),
            Tok::Ident("self"@),
            Tok::Punct(';', false),
        ]
    } else {
        seq![Tok::Ident("let"@)] + pattern_toks(p->Typed_pattern) + seq![
            Tok::Punct('=', false),
            Tok::Ident(numbered(i)),
            Tok::Punct(';', false),
        ]
    }
}

/// The statements for the first `n` parameters, in the order of the
/// parameters.
pub open spec fn rebindings(inputs: Seq<ParamView>, n: nat) -> Seq<Tok>
    decreases n,
{
    if n == 0 || n > inputs.len() {
        Seq::empty()
    } else {
        rebindings(inputs, (n - 1) as nat) + rebinding(inputs[n - 1], (n - 1) as nat)
    }
}

/// The instrumented function has as many parameters as the function, with the
/// same attributes and types in the same order; a receiver stays a receiver,
/// by reference where it was by reference.
pub proof fn normalized_keeps_arity_and_types(inputs: Seq<ParamView>, i: int)
    requires
        0 <= i < inputs.len(),
    ensures
        normalized_all(inputs).len() == inputs.len(),
        inputs[i] matches ParamView::Typed { attrs, ty, .. } ==> {
            &&& normalized_all(inputs)[i] is Typed
            &&& normalized_all(inputs)[i]->Typed_attrs == attrs
            &&& normalized_all(inputs)[i]->Typed_ty == ty
        },
        inputs[i] matches ParamView::Receiver { attrs, reference, lifetime, ty, .. } ==> {
            &&& normalized_all(inputs)[i] is Receiver
            &&& normalized_all(inputs)[i]->Receiver_attrs == attrs
            &&& normalized_all(inputs)[i]->reference == reference
            &&& normalized_all(inputs)[i]->lifetime == lifetime
            &&& normalized_all(inputs)[i]->Receiver_ty == ty
        },
        is_receiver(normalized_all(inputs)[i]) == is_receiver(inputs[i]),
{
    reveal_strlit("self");
    reveal_strlit("__arg");
    if !is_receiver(inputs[i]) {
        assert(numbered(i as nat)[0] == '_');
        assert("self"@[0] == 's');
    }
}

/// The statement for a typed parameter binds the pattern that the parameter
/// had, whatever it is, to the name that the parameter has now.
pub proof fn rebinding_restores_pattern(p: ParamView, i: nat)
    requires
        p is Typed,
        !is_receiver(p),
    ensures
        normalized(p, i)->Typed_pattern == (PatternView::Ident {
            by_ref: false,
            mutable: true,
            name: numbered(i),
            subpattern: Seq::empty(),
        }),
        rebinding(p, i) == seq![Tok::Ident("let"@)] + pattern_toks(p->Typed_pattern) + seq![
            Tok::Punct('=', false),
            Tok::Ident(numbered(i)),
            Tok::Punct(';', false),
        ],
{
}

/// Whether a pattern is the identifier `self`.
pub fn pattern_is_self(p: &Pattern) -> (b: bool)
    ensures
        b == is_self_pattern(p@),
{
    match p {
        Pattern::Ident { name, .. } => {
            let wanted = String::from_str("self");
            *name == wanted
        },
        Pattern::Other(_) => false,
    }
}

/// The statement that gives the receiver back to the body.
fn receiver_rebinding_tokens(mutable: bool) -> (out: Vec<Token>)
    ensures
        toks(out@) == seq![Tok::Ident("let"@)] + (if mutable {
            seq![Tok::Ident("mut"@)]
        } else {
            Seq::empty()
        }) + seq![
            Tok::Ident("__self"@),
            Tok::Punct('=', false),
            Tok::Ident("self"@),
            Tok::Punct(';', false),
        ],
{
    broadcast use crate::token::group_toks;

    let mut out: Vec<Token> = Vec::new();
    out.push(ident("let"));
    if mutable {
        out.push(ident("mut"));
    }
    out.push(ident("__self"));
    out.push(punct('='));
    out.push(ident("self"));
    out.push(punct(';'));
    assert(toks(out@) =~= seq![Tok::Ident("let"@)] + (if mutable {
        seq![Tok::Ident("mut"@)]
    } else {
        Seq::empty()
    }) + seq![
        Tok::Ident("__self"@),
        Tok::Punct('=', false),
        Tok::Ident("self"@),
        Tok::Punct(';', false),
    ]);
    out
}

/// The statement that gives a typed parameter back to the body.
fn pattern_rebinding_tokens(pattern: &Pattern, i: usize) -> (out: Vec<Token>)
    ensures
        toks(out@) == seq![Tok::Ident("let"@)] + pattern_toks(pattern@) + seq![
            Tok::Punct('=', false),
            Tok::Ident(numbered(i as nat)),
            Tok::Punct(';', false),
        ],
{
    broadcast use crate::token::group_toks;

    let mut out: Vec<Token> = Vec::new();
    out.push(ident("let"));
    append_tokens(&mut out, pattern_tokens(pattern));
    out.push(punct('='));
    out.push(Token::Ident(numbered_name(i)));
    out.push(punct(';'));
    assert(toks(out@) =~= seq![Tok::Ident("let"@)] + pattern_toks(pattern@) + seq![
        Tok::Punct('=', false),
        Tok::Ident(numbered(i as nat)),
        Tok::Punct(';', false),
    ]);
    out
}

/// The parameter at position `i` as the instrumented function declares it,
/// and the statement that gives it back to the body.
pub fn normalize_param(p: &Param, i: usize) -> (r: (Param, Vec<Token>))
    ensures
        r.0@ == normalized(p@, i as nat),
        toks(r.1@) == rebinding(p@, i as nat),
{
    match p {
        Param::Typed { attrs, pattern, ty } => {
            let kept = match pattern {
                Pattern::Ident { by_ref, mutable, name, subpattern } => {
                    let wanted = String::from_str("self");
                    if *name == wanted {
                        Some(
                            (
                                Pattern::Ident {
                                    by_ref: *by_ref,
                                    mutable: false,
                                    name: name.clone(),
                                    subpattern: clone_tokens(subpattern),
                                },
                                receiver_rebinding_tokens(*mutable),
                            ),
                        )
                    } else {
                        None
                    }
                },
                Pattern::Other(_) => None,
            };
            let (pattern, stmt) = match kept {
                Some(pair) => pair,
                None => (
                    Pattern::Ident {
                        by_ref: false,
                        mutable: true,
                        name: numbered_name(i),
                        subpattern: Vec::new(),
                    },
                    pattern_rebinding_tokens(pattern, i),
                ),
            };
            assert(toks(Seq::<Token>::empty()) =~= Seq::<Tok>::empty());
            (Param::Typed { attrs: clone_tokens(attrs), pattern, ty: clone_tokens(ty) }, stmt)
        },
        Param::Receiver { attrs, reference, lifetime, mutable, ty } => {
            let stmt = receiver_rebinding_tokens(!*reference && *mutable);
            let kept = Param::Receiver {
                attrs: clone_tokens(attrs),
                reference: *reference,
                lifetime: clone_tokens(lifetime),
                mutable: *reference && *mutable,
                ty: clone_tokens(ty),
            };
            (kept, stmt)
        },
    }
}

/// Whether a parameter is the receiver.
pub fn param_is_receiver(p: &Param) -> (b: bool)
    ensures
        b == is_receiver(p@),
{
    match p {
        Param::Typed { pattern, .. } => pattern_is_self(pattern),
        Param::Receiver { .. } => true,
    }
}

/// What becomes of the parameters of a function.
pub struct Normalized {
    /// The parameters as the instrumented function declares them.
    pub inputs: Vec<Param>,
    /// The statements that give the parameters back to the body.
    pub rebindings: Vec<Token>,
    /// Whether one of the parameters is the receiver.
    pub receiver: bool,
}

/// Gives every typed parameter its made-up name, and says how the body gets
/// the parameters back.
pub fn normalize_inputs(inputs: &Vec<Param>) -> (out: Normalized)
    ensures
        views(out.inputs@) == normalized_all(views(inputs@)),
        toks(out.rebindings@) == rebindings(views(inputs@), inputs@.len()),
        out.receiver == has_receiver(views(inputs@)),
{
    let mut params: Vec<Param> = Vec::new();
    let mut stmts: Vec<Token> = Vec::new();
    let mut receiver = false;
    let mut i: usize = 0;
    assert(toks(stmts@) =~= Seq::<Tok>::empty());
    while i < inputs.len()
        invariant
            i <= inputs.len(),
            params@.len() == i,
            forall|j: int| 0 <= j < i ==> (#[trigger] params@[j])@ == normalized(inputs@[j]@, j as nat),
            toks(stmts@) == rebindings(views(inputs@), i as nat),
            receiver == (exists|j: int| 0 <= j < i && is_receiver(#[trigger] views(inputs@)[j])),
        decreases inputs.len() - i,
    {
        let (param, stmt) = normalize_param(&inputs[i], i);
        if param_is_receiver(&inputs[i]) {
            receiver = true;
        }
        params.push(param);
        append_tokens(&mut stmts, stmt);
        assert(views(inputs@)[i as int] == inputs@[i as int]@);
        i += 1;
    }
    assert(views(params@) =~= normalized_all(views(inputs@)));
    Normalized { inputs: params, rebindings: stmts, receiver }
}

} // verus!
