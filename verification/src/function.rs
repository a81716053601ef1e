//! A function definition, as far as the instrumentation reads it.
//!
//! The parts that the instrumentation only carries along are token sequences.
//! The parts that it reads or rewrites have a shape of their own: the
//! attributes, the parameters, the return type and the body.

use vstd::prelude::*;
use crate::rebind::{Syntax, SyntaxView, syntaxes_of};
use crate::token::{append_tokens, clone_tokens, group, ident, joint, punct, toks, Delimiter, Tok, Token};
use crate::types::{type_tokens, type_toks, TypeShape, TypeView};

verus! {

/// The values of a sequence, in order.
pub open spec fn views<T: View>(items: Seq<T>) -> Seq<T::V> {
    Seq::new(items.len(), |i: int| items[i]@)
}

/// An attribute: `#[path arguments]`, or `#![path arguments]` where it is an
/// inner one.
#[derive(Clone, Debug, PartialEq, Eq)]
pub struct Attribute {
    /// Whether the attribute is written inside the body that it applies to.
    pub inner: bool,
    /// The tokens of the path.
    pub path: Vec<Token>,
    /// The tokens that follow the path.
    pub arguments: Vec<Token>,
}

/// The mathematical value of an [`Attribute`].
pub struct AttributeView {
    pub inner: bool,
    pub path: Seq<Tok>,
    pub arguments: Seq<Tok>,
}

impl View for Attribute {
    type V = AttributeView;

    open spec fn view(&self) -> AttributeView {
        AttributeView {
            inner: self.inner,
            path: toks(self.path@),
            arguments: toks(self.arguments@),
        }
    }
}

/// The pattern of a typed parameter.
#[derive(Clone, Debug, PartialEq, Eq)]
pub enum Pattern {
    /// `ref? mut? name subpattern?`
    Ident { by_ref: bool, mutable: bool, name: String, subpattern: Vec<Token> },
    /// Any other pattern, as tokens.
    Other(Vec<Token>),
}

/// The mathematical value of a [`Pattern`].
pub enum PatternView {
    Ident { by_ref: bool, mutable: bool, name: Seq<char>, subpattern: Seq<Tok> },
    Other(Seq<Tok>),
}

impl View for Pattern {
    type V = PatternView;

    open spec fn view(&self) -> PatternView {
        match self {
            Pattern::Ident { by_ref, mutable, name, subpattern } => PatternView::Ident {
                by_ref: *by_ref,
                mutable: *mutable,
                name: name@,
                subpattern: toks(subpattern@),
            },
            Pattern::Other(ts) => PatternView::Other(toks(ts@)),
        }
    }
}

/// One parameter of a function.
#[derive(Clone, Debug, PartialEq, Eq)]
pub enum Param {
    /// `attrs pattern: ty`
    Typed { attrs: Vec<Token>, pattern: Pattern, ty: Vec<Token> },
    /// The receiver: `self`, `mut self`, `&self`, `&'a mut self`, or `self`
    /// with a type, such as `self: Pin<&mut Self>`. `lifetime` holds the
    /// tokens between `&` and what follows; `ty` holds the colon and the type,
    /// or nothing.
    Receiver { attrs: Vec<Token>, reference: bool, lifetime: Vec<Token>, mutable: bool, ty: Vec<Token> },
}

/// The mathematical value of a [`Param`].
pub enum ParamView {
    Typed { attrs: Seq<Tok>, pattern: PatternView, ty: Seq<Tok> },
    Receiver { attrs: Seq<Tok>, reference: bool, lifetime: Seq<Tok>, mutable: bool, ty: Seq<Tok> },
}

impl View for Param {
    type V = ParamView;

    open spec fn view(&self) -> ParamView {
        match self {
            Param::Typed { attrs, pattern, ty } => ParamView::Typed {
                attrs: toks(attrs@),
                pattern: pattern@,
                ty: toks(ty@),
            },
            Param::Receiver { attrs, reference, lifetime, mutable, ty } => ParamView::Receiver {
                attrs: toks(attrs@),
                reference: *reference,
                lifetime: toks(lifetime@),
                mutable: *mutable,
                ty: toks(ty@),
            },
        }
    }
}

/// The signature of a function.
#[derive(Clone, Debug, PartialEq, Eq)]
pub struct Signature {
    pub constness: bool,
    pub asyncness: bool,
    pub unsafety: bool,
    /// `extern "abi"`, or nothing.
    pub abi: Vec<Token>,
    pub ident: String,
    /// The generic parameters with their angle brackets, or nothing.
    pub generics: Vec<Token>,
    pub inputs: Vec<Param>,
    /// The tokens of a variadic last parameter, or nothing.
    pub variadic: Vec<Token>,
    /// The declared return type; `None` where the function declares none.
    pub output: Option<TypeShape>,
    /// The `where` clause, or nothing.
    pub where_clause: Vec<Token>,
}

/// The mathematical value of a [`Signature`].
pub struct SignatureView {
    pub constness: bool,
    pub asyncness: bool,
    pub unsafety: bool,
    pub abi: Seq<Tok>,
    pub ident: Seq<char>,
    pub generics: Seq<Tok>,
    pub inputs: Seq<ParamView>,
    pub variadic: Seq<Tok>,
    pub output: Option<TypeView>,
    pub where_clause: Seq<Tok>,
}

impl View for Signature {
    type V = SignatureView;

    open spec fn view(&self) -> SignatureView {
        SignatureView {
            constness: self.constness,
            asyncness: self.asyncness,
            unsafety: self.unsafety,
            abi: toks(self.abi@),
            ident: self.ident@,
            generics: toks(self.generics@),
            inputs: views(self.inputs@),
            variadic: toks(self.variadic@),
            output: match self.output {
                Some(t) => Some(t@),
                None => None,
            },
            where_clause: toks(self.where_clause@),
        }
    }
}

/// A function definition whose body is still a tree.
#[derive(Clone, Debug, PartialEq, Eq)]
pub struct FunctionItem {
    pub attrs: Vec<Attribute>,
    /// The visibility, or nothing.
    pub vis: Vec<Token>,
    pub sig: Signature,
    /// The statements of the body.
    pub body: Vec<Syntax>,
}

/// The mathematical value of a [`FunctionItem`].
pub struct FunctionView {
    pub attrs: Seq<AttributeView>,
    pub vis: Seq<Tok>,
    pub sig: SignatureView,
    pub body: Seq<SyntaxView>,
}

impl View for FunctionItem {
    type V = FunctionView;

    open spec fn view(&self) -> FunctionView {
        FunctionView {
            attrs: views(self.attrs@),
            vis: toks(self.vis@),
            sig: self.sig@,
            body: syntaxes_of(self.body@),
        }
    }
}

/// A function definition whose body is tokens: what the instrumentation
/// gives back.
#[derive(Clone, Debug, PartialEq, Eq)]
pub struct Instrumented {
    pub attrs: Vec<Attribute>,
    pub vis: Vec<Token>,
    pub sig: Signature,
    /// The tokens between the braces of the body.
    pub block: Vec<Token>,
}

/// The mathematical value of an [`Instrumented`].
pub struct InstrumentedView {
    pub attrs: Seq<AttributeView>,
    pub vis: Seq<Tok>,
    pub sig: SignatureView,
    pub block: Seq<Tok>,
}

impl View for Instrumented {
    type V = InstrumentedView;

    open spec fn view(&self) -> InstrumentedView {
        InstrumentedView {
            attrs: views(self.attrs@),
            vis: toks(self.vis@),
            sig: self.sig@,
            block: toks(self.block@),
        }
    }
}

/// The tokens of a pattern.
pub open spec fn pattern_toks(p: PatternView) -> Seq<Tok> {
    match p {
        PatternView::Ident { by_ref, mutable, name, subpattern } => (if by_ref {
            seq![Tok::Ident("ref"@)]
        } else {
            Seq::empty()
        }) + (if mutable {
            seq![Tok::Ident("mut"@)]
        } else {
            Seq::empty()
        }) + seq![Tok::Ident(name)] + subpattern,
        PatternView::Other(ts) => ts,
    }
}

/// The tokens of an attribute.
pub open spec fn attribute_toks(a: AttributeView) -> Seq<Tok> {
    seq![Tok::Punct('#', false)] + (if a.inner {
        seq![Tok::Punct('!', false)]
    } else {
        Seq::empty()
    }) + seq![Tok::Group(Delimiter::Bracket, a.path + a.arguments)]
}

/// The tokens of those of the first `n` attributes that are inner ones, where
/// `inner` is set, and of those that are not, where it is not.
pub open spec fn attributes_toks(attrs: Seq<AttributeView>, n: nat, inner: bool) -> Seq<Tok>
    decreases n,
{
    if n == 0 || n > attrs.len() {
        Seq::empty()
    } else {
        attributes_toks(attrs, (n - 1) as nat, inner) + (if attrs[n - 1].inner == inner {
            attribute_toks(attrs[n - 1])
        } else {
            Seq::empty()
        })
    }
}

/// The tokens of a parameter.
pub open spec fn param_toks(p: ParamView) -> Seq<Tok> {
    match p {
        ParamView::Typed { attrs, pattern, ty } => attrs + pattern_toks(pattern) + seq![
            Tok::Punct(':', false),
        ] + ty,
        ParamView::Receiver { attrs, reference, lifetime, mutable, ty } => attrs + (if reference {
            seq![Tok::Punct('&', false)] + lifetime
        } else {
            Seq::empty()
        }) + (if mutable {
            seq![Tok::Ident("mut"@)]
        } else {
            Seq::empty()
        }) + seq![Tok::Ident("self"@)] + ty,
    }
}

/// The tokens of the first `n` parameters, each followed by a comma.
pub open spec fn params_toks(inputs: Seq<ParamView>, n: nat) -> Seq<Tok>
    decreases n,
{
    if n == 0 || n > inputs.len() {
        Seq::empty()
    } else {
        params_toks(inputs, (n - 1) as nat) + param_toks(inputs[n - 1]) + seq![
            Tok::Punct(',', false),
        ]
    }
}

/// The tokens of a declared return type: `-> ty`, or nothing.
pub open spec fn output_toks(output: Option<TypeView>) -> Seq<Tok> {
    match output {
        Some(t) => seq![Tok::Punct('-', true), Tok::Punct('>', false)] + type_toks(t),
        None => Seq::empty(),
    }
}

/// The tokens of what stands in front of `fn` in a signature.
pub open spec fn qualifier_toks(sig: SignatureView) -> Seq<Tok> {
    (if sig.constness {
        seq![Tok::Ident("const"@)]
    } else {
        Seq::empty()
    }) + (if sig.asyncness {
        seq![Tok::Ident("async"@)]
    } else {
        Seq::empty()
    }) + (if sig.unsafety {
        seq![Tok::Ident("unsafe"@)]
    } else {
        Seq::empty()
    }) + sig.abi
}

/// The tokens of a signature.
pub open spec fn signature_toks(sig: SignatureView) -> Seq<Tok> {
    qualifier_toks(sig) + seq![Tok::Ident("fn"@), Tok::Ident(sig.ident)] + sig.generics + seq![
        Tok::Group(
            Delimiter::Parenthesis,
            params_toks(sig.inputs, sig.inputs.len()) + sig.variadic,
        ),
    ] + output_toks(sig.output) + sig.where_clause
}

/// The tokens of an instrumented function: the outer attributes, the
/// visibility, the signature, and between braces the inner attributes and the
/// body.
pub open spec fn item_toks(f: InstrumentedView) -> Seq<Tok> {
    attributes_toks(f.attrs, f.attrs.len(), false) + f.vis + signature_toks(f.sig) + seq![
        Tok::Group(Delimiter::Brace, attributes_toks(f.attrs, f.attrs.len(), true) + f.block),
    ]
}

/// The tokens of a pattern.
pub fn pattern_tokens(p: &Pattern) -> (out: Vec<Token>)
    ensures
        toks(out@) == pattern_toks(p@),
{
    broadcast use crate::token::group_toks;

    match p {
        Pattern::Ident { by_ref, mutable, name, subpattern } => {
            let mut out: Vec<Token> = Vec::new();
            if *by_ref {
                out.push(ident("ref"));
            }
            if *mutable {
                out.push(ident("mut"));
            }
            out.push(Token::Ident(name.clone()));
            append_tokens(&mut out, clone_tokens(subpattern));
            assert(toks(out@) =~= pattern_toks(p@));
            out
        },
        Pattern::Other(ts) => clone_tokens(ts),
    }
}

/// The tokens of an attribute.
pub fn attribute_tokens(a: &Attribute) -> (out: Vec<Token>)
    ensures
        toks(out@) == attribute_toks(a@),
{
    broadcast use crate::token::group_toks;

    let mut out: Vec<Token> = Vec::new();
    out.push(punct('#'));
    if a.inner {
        out.push(punct('!'));
    }
    let mut inside = clone_tokens(&a.path);
    append_tokens(&mut inside, clone_tokens(&a.arguments));
    out.push(group(Delimiter::Bracket, inside));
    assert(toks(out@) =~= attribute_toks(a@));
    out
}

/// The tokens of the inner attributes among `attrs`, where `inner` is set, and
/// of the others, where it is not.
pub fn attributes_tokens(attrs: &Vec<Attribute>, inner: bool) -> (out: Vec<Token>)
    ensures
        toks(out@) == attributes_toks(views(attrs@), attrs@.len(), inner),
{
    let mut out: Vec<Token> = Vec::new();
    let mut i: usize = 0;
    assert(toks(out@) =~= Seq::<Tok>::empty());
    while i < attrs.len()
        invariant
            i <= attrs.len(),
            toks(out@) == attributes_toks(views(attrs@), i as nat, inner),
        decreases attrs.len() - i,
    {
        let ghost before = toks(out@);
        if attrs[i].inner == inner {
            append_tokens(&mut out, attribute_tokens(&attrs[i]));
        }
        assert(views(attrs@)[i as int] == attrs@[i as int]@);
        assert(toks(out@) =~= before + (if attrs@[i as int]@.inner == inner {
            attribute_toks(attrs@[i as int]@)
        } else {
            Seq::empty()
        }));
        i += 1;
    }
    out
}

/// The tokens of a parameter.
pub fn param_tokens(p: &Param) -> (out: Vec<Token>)
    ensures
        toks(out@) == param_toks(p@),
{
    broadcast use crate::token::group_toks;

    match p {
        Param::Typed { attrs, pattern, ty } => {
            let mut out = clone_tokens(attrs);
            append_tokens(&mut out, pattern_tokens(pattern));
            out.push(punct(':'));
            append_tokens(&mut out, clone_tokens(ty));
            assert(toks(out@) =~= param_toks(p@));
            out
        },
        Param::Receiver { attrs, reference, lifetime, mutable, ty } => {
            let mut out = clone_tokens(attrs);
            if *reference {
                out.push(punct('&'));
                append_tokens(&mut out, clone_tokens(lifetime));
            }
            if *mutable {
                out.push(ident("mut"));
            }
            out.push(ident("self"));
            append_tokens(&mut out, clone_tokens(ty));
            assert(toks(out@) =~= param_toks(p@));
            out
        },
    }
}

/// The tokens of the parameters, each followed by a comma.
pub fn params_tokens(inputs: &Vec<Param>) -> (out: Vec<Token>)
    ensures
        toks(out@) == params_toks(views(inputs@), inputs@.len()),
{
    let mut out: Vec<Token> = Vec::new();
    let mut i: usize = 0;
    assert(toks(out@) =~= Seq::<Tok>::empty());
    while i < inputs.len()
        invariant
            i <= inputs.len(),
            toks(out@) == params_toks(views(inputs@), i as nat),
        decreases inputs.len() - i,
    {
        broadcast use crate::token::group_toks;

        let ghost before = toks(out@);
        append_tokens(&mut out, param_tokens(&inputs[i]));
        out.push(punct(','));
        assert(views(inputs@)[i as int] == inputs@[i as int]@);
        assert(toks(out@) =~= before + param_toks(inputs@[i as int]@) + seq![
            Tok::Punct(',', false),
        ]);
        i += 1;
    }
    out
}

/// The tokens of a declared return type: `-> ty`, or nothing.
pub fn output_tokens(output: &Option<TypeShape>) -> (out: Vec<Token>)
    ensures
        toks(out@) == output_toks(
            match *output {
                Some(t) => Some(t@),
                None => None,
            },
        ),
{
    broadcast use crate::token::group_toks;

    let mut out: Vec<Token> = Vec::new();
    match output {
        Some(t) => {
            out.push(joint('-'));
            out.push(punct('>'));
            append_tokens(&mut out, type_tokens(t));
            assert(toks(out@) =~= seq![Tok::Punct('-', true), Tok::Punct('>', false)]
                + type_toks(t@));
        },
        None => {
            assert(toks(out@) =~= Seq::<Tok>::empty());
        },
    }
    out
}

/// The tokens of a signature.
pub fn signature_tokens(sig: &Signature) -> (out: Vec<Token>)
    ensures
        toks(out@) == signature_toks(sig@),
{
    broadcast use crate::token::group_toks;

    let mut out: Vec<Token> = Vec::new();
    if sig.constness {
        out.push(ident("const"));
    }
    if sig.asyncness {
        out.push(ident("async"));
    }
    if sig.unsafety {
        out.push(ident("unsafe"));
    }
    append_tokens(&mut out, clone_tokens(&sig.abi));
    assert(toks(out@) =~= qualifier_toks(sig@));
    out.push(ident("fn"));
    out.push(Token::Ident(sig.ident.clone()));
    append_tokens(&mut out, clone_tokens(&sig.generics));
    let mut params = params_tokens(&sig.inputs);
    append_tokens(&mut params, clone_tokens(&sig.variadic));
    out.push(group(Delimiter::Parenthesis, params));
    append_tokens(&mut out, output_tokens(&sig.output));
    append_tokens(&mut out, clone_tokens(&sig.where_clause));
    assert(toks(out@) =~= signature_toks(sig@));
    out
}

impl Instrumented {
    /// The tokens of the function.
    pub fn to_tokens(&self) -> (out: Vec<Token>)
        ensures
            toks(out@) == item_toks(self@),
    {
        broadcast use crate::token::group_toks;

        let mut out = attributes_tokens(&self.attrs, false);
        append_tokens(&mut out, clone_tokens(&self.vis));
        append_tokens(&mut out, signature_tokens(&self.sig));
        let mut inside = attributes_tokens(&self.attrs, true);
        append_tokens(&mut inside, clone_tokens(&self.block));
        out.push(group(Delimiter::Brace, inside));
        assert(toks(out@) =~= item_toks(self@));
        out
    }
}

} // verus!
