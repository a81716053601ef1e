//! The instrumented function.
//!
//! The body of the function moves into a closure that the new body calls at
//! once. A guard is made before the call and forgotten after it. Where the
//! closure returns, the guard's teardown never runs. Where the closure unwinds,
//! the guard is dropped on the way out and its teardown runs: it calls a
//! function that no library defines, under a link name that holds the name of
//! the instrumented function, or it brings the process down. An optimising
//! build that can show that the closure never unwinds removes the teardown, and
//! with it the reference to the missing function; a build that cannot fails to
//! link, and the linker's message shows the link name.

use vstd::prelude::*;
use crate::decimal::{decimal, decimal_len_is_monotonic, push_decimal};
use crate::function::{
    views, Attribute, AttributeView, FunctionItem, FunctionView, Instrumented, InstrumentedView,
    Signature, SignatureView,
};
use crate::function::{output_toks, pattern_toks, ParamView, PatternView};
use crate::normalize::{
    has_receiver, is_mutable_value, is_receiver, normalize_inputs, normalized_all, numbered,
    rebinding, rebindings,
};
use crate::rebind::{rebind, rebound, rebound_all, SyntaxView};
use crate::token::{
    append_tokens, group, ident, joint, punct, string, toks, Delimiter, Tok, Token,
};
use crate::types::{make_impl_trait_wild, type_tokens, type_toks, wild, TypeShape, TypeView};

verus! {

/// What guards the closure.
#[derive(Clone, Debug, PartialEq, Eq)]
pub enum Sentinel {
    /// A guard whose teardown calls a function that is declared under the
    /// given link name and defined nowhere.
    Link(String),
    /// A guard whose teardown brings the process down.
    Abort,
    /// No guard: the function may unwind.
    Absent,
}

/// The mathematical value of a [`Sentinel`].
pub enum SentinelView {
    Link(Seq<char>),
    Abort,
    Absent,
}

impl View for Sentinel {
    type V = SentinelView;

    open spec fn view(&self) -> SentinelView {
        match self {
            Sentinel::Link(name) => SentinelView::Link(name@),
            Sentinel::Abort => SentinelView::Abort,
            Sentinel::Absent => SentinelView::Absent,
        }
    }
}

/// How a link name holds the name of a function.
#[derive(Clone, Copy, Debug, PartialEq, Eq, Structural)]
pub enum Encoding {
    /// A message for the reader of the linker's output.
    Message,
    /// A symbol in the shape of a mangled name.
    Symbol,
}

/// The message that names the function `name`.
pub open spec fn diagnostic_message(name: Seq<char>) -> Seq<char> {
    "\n\nERROR[no-panic]: detected panic in function `"@ + name + "`\n"@
}

/// The symbol that names the function `name`: a fixed prefix, the number of
/// characters of the name, the name, and `E`.
pub open spec fn mangled_symbol(name: Seq<char>) -> Seq<char> {
    "_Z22RUST_PANIC_IN_FUNCTIONI"@ + decimal(name.len()) + name + "E"@
}

/// The link name that holds `name` in the given encoding.
pub open spec fn link_name_of(encoding: Encoding, name: Seq<char>) -> Seq<char> {
    match encoding {
        Encoding::Message => diagnostic_message(name),
        Encoding::Symbol => mangled_symbol(name),
    }
}

/// The link name that holds `name` in the given encoding.
pub fn link_name(encoding: Encoding, name: &str) -> (out: String)
    ensures
        out@ == link_name_of(encoding, name@),
{
    match encoding {
        Encoding::Message => {
            let mut out = String::from_str("\n\nERROR[no-panic]: detected panic in function `");
            out.append(name);
            out.append("`\n");
            out
        },
        Encoding::Symbol => {
            let mut out = String::from_str("_Z22RUST_PANIC_IN_FUNCTIONI");
            push_decimal(&mut out, name.unicode_len());
            out.append(name);
            out.append("E");
            out
        },
    }
}

/// What a reader of the build's output looks for.
pub open spec fn marker() -> Seq<char> {
    "detected panic in function"@
}

/// A message holds the marker, and behind it the name.
pub proof fn diagnostic_message_holds_the_marker(name: Seq<char>)
    ensures
        diagnostic_message(name).subrange(19, 45) == marker(),
        diagnostic_message(name).subrange(47, 47 + name.len() as int) == name,
{
    reveal_strlit("\n\nERROR[no-panic]: detected panic in function `");
    reveal_strlit("detected panic in function");
    let message = diagnostic_message(name);
    assert(message.subrange(19, 45) =~= marker());
    assert(message.subrange(47, 47 + name.len() as int) =~= name);
}

/// A message names one function only.
pub proof fn diagnostic_message_names_one_function(a: Seq<char>, b: Seq<char>)
    requires
        diagnostic_message(a) == diagnostic_message(b),
    ensures
        a == b,
{
    let front = "\n\nERROR[no-panic]: detected panic in function `"@;
    let back = "`\n"@;
    let ma = diagnostic_message(a);
    let mb = diagnostic_message(b);
    assert(ma.len() == front.len() + a.len() + back.len());
    assert(mb.len() == front.len() + b.len() + back.len());
    assert(ma.subrange(front.len() as int, (front.len() + a.len()) as int) =~= a);
    assert(mb.subrange(front.len() as int, (front.len() + b.len()) as int) =~= b);
}

/// A symbol names one function only.
pub proof fn mangled_symbol_names_one_function(a: Seq<char>, b: Seq<char>)
    requires
        mangled_symbol(a) == mangled_symbol(b),
    ensures
        a == b,
{
    let front = "_Z22RUST_PANIC_IN_FUNCTIONI"@;
    let back = "E"@;
    let da = decimal(a.len());
    let db = decimal(b.len());
    let ma = mangled_symbol(a);
    let mb = mangled_symbol(b);
    assert(ma.len() == front.len() + da.len() + a.len() + back.len());
    assert(mb.len() == front.len() + db.len() + b.len() + back.len());
    if a.len() < b.len() {
        decimal_len_is_monotonic(a.len(), b.len());
    } else if b.len() < a.len() {
        decimal_len_is_monotonic(b.len(), a.len());
    } else {
        let start = front.len() + da.len();
        assert(ma.subrange(start as int, (start + a.len()) as int) =~= a);
        assert(mb.subrange(start as int, (start + b.len()) as int) =~= b);
    }
}

/// Whether an attribute is an inlining hint: its path is `inline`.
pub open spec fn is_inline(a: AttributeView) -> bool {
    a.path == seq![Tok::Ident("inline"@)]
}

/// Whether one of the attributes is an inlining hint.
pub open spec fn has_inline(attrs: Seq<AttributeView>) -> bool {
    exists|i: int| 0 <= i < attrs.len() && is_inline(#[trigger] attrs[i])
}

/// The attribute `#[inline]`.
pub open spec fn inline_hint() -> AttributeView {
    AttributeView { inner: false, path: seq![Tok::Ident("inline"@)], arguments: Seq::empty() }
}

/// The attributes with an inlining hint: as they are where they hold one,
/// with `#[inline]` at the end where they do not.
pub open spec fn hinted(attrs: Seq<AttributeView>) -> Seq<AttributeView> {
    if has_inline(attrs) {
        attrs
    } else {
        attrs.push(inline_hint())
    }
}

/// `::`
pub open spec fn path_sep() -> Seq<Tok> {
    seq![Tok::Punct(':', true), Tok::Punct(':', false)]
}

/// `-> !`
pub open spec fn never_returns() -> Seq<Tok> {
    seq![Tok::Punct('-', true), Tok::Punct('>', false), Tok::Punct('!', false)]
}

/// `extern "C" { #[link_name = "name"] fn trigger() -> !; }`
pub open spec fn trigger_declaration(name: Seq<char>) -> Seq<Tok> {
    seq![
        Tok::Ident("extern"@),
        Tok::Str("C"@),
        Tok::Group(
            Delimiter::Brace,
            seq![
                Tok::Punct('#', false),
                Tok::Group(
                    Delimiter::Bracket,
                    seq![Tok::Ident("link_name"@), Tok::Punct('=', false), Tok::Str(name)],
                ),
                Tok::Ident("fn"@),
                Tok::Ident("trigger"@),
                Tok::Group(Delimiter::Parenthesis, Seq::empty()),
            ] + never_returns() + seq![Tok::Punct(';', false)],
        ),
    ]
}

/// `fn drop(&mut self) { unsafe { trigger(); } }`
pub open spec fn drop_method() -> Seq<Tok> {
    seq![
        Tok::Ident("fn"@),
        Tok::Ident("drop"@),
        Tok::Group(
            Delimiter::Parenthesis,
            seq![Tok::Punct('&', false), Tok::Ident("mut"@), Tok::Ident("self"@)],
        ),
        Tok::Group(
            Delimiter::Brace,
            seq![
                Tok::Ident("unsafe"@),
                Tok::Group(
                    Delimiter::Brace,
                    seq![
                        Tok::Ident("trigger"@),
                        Tok::Group(Delimiter::Parenthesis, Seq::empty()),
                        Tok::Punct(';', false),
                    ],
                ),
            ],
        ),
    ]
}

/// `impl core::ops::Drop for __NoPanic { .. }`
pub open spec fn drop_impl() -> Seq<Tok> {
    seq![Tok::Ident("impl"@), Tok::Ident("core"@)] + path_sep() + seq![Tok::Ident("ops"@)]
        + path_sep() + seq![
        Tok::Ident("Drop"@),
        Tok::Ident("for"@),
        Tok::Ident("__NoPanic"@),
        Tok::Group(Delimiter::Brace, drop_method()),
    ]
}

/// The path of the guard whose teardown brings the process down:
/// `noexcept::__private::AbortOnDrop`.
pub open spec fn abort_guard_path() -> Seq<Tok> {
    seq![Tok::Ident("noexcept"@)] + path_sep() + seq![Tok::Ident("__private"@)] + path_sep()
        + seq![Tok::Ident("AbortOnDrop"@)]
}

/// `let __guard = <guard>;`
pub open spec fn guard_binding(guard: Seq<Tok>) -> Seq<Tok> {
    seq![Tok::Ident("let"@), Tok::Ident("__guard"@), Tok::Punct('=', false)] + guard + seq![
        Tok::Punct(';', false),
    ]
}

/// The statements that declare and make the guard.
pub open spec fn guard_toks(s: SentinelView) -> Seq<Tok> {
    match s {
        SentinelView::Link(name) => seq![
            Tok::Ident("struct"@),
            Tok::Ident("__NoPanic"@),
            Tok::Punct(';', false),
        ] + trigger_declaration(name) + drop_impl() + guard_binding(
            seq![Tok::Ident("__NoPanic"@)],
        ),
        SentinelView::Abort => guard_binding(abort_guard_path()),
        SentinelView::Absent => Seq::empty(),
    }
}

/// The statement that forgets the guard: `core::mem::forget(__guard);`, or
/// nothing where there is no guard.
pub open spec fn forget_toks(s: SentinelView) -> Seq<Tok> {
    match s {
        SentinelView::Absent => Seq::empty(),
        _ => seq![Tok::Ident("core"@)] + path_sep() + seq![Tok::Ident("mem"@)] + path_sep() + seq![
            Tok::Ident("forget"@),
            Tok::Group(Delimiter::Parenthesis, seq![Tok::Ident("__guard"@)]),
            Tok::Punct(';', false),
        ],
    }
}

/// The return type that the closure declares: that of the function with
/// every opaque type left to inference, or `()` where the function declares
/// none.
pub open spec fn closure_return_toks(output: Option<TypeView>) -> Seq<Tok> {
    seq![Tok::Punct('-', true), Tok::Punct('>', false)] + (match output {
        Some(t) => type_toks(wild(t)),
        None => seq![Tok::Group(Delimiter::Parenthesis, Seq::empty())],
    })
}

/// What the closure holds: the statements that give the parameters back, then
/// the body, with the receiver renamed where the function has one.
pub open spec fn closure_body_toks(f: FunctionView) -> Seq<Tok> {
    rebindings(f.sig.inputs, f.sig.inputs.len()) + rebound_all(
        f.body,
        f.body.len(),
        has_receiver(f.sig.inputs),
    )
}

/// `let __result = (move || -> ret { .. })();`
pub open spec fn call_toks(f: FunctionView) -> Seq<Tok> {
    seq![
        Tok::Ident("let"@),
        Tok::Ident("__result"@),
        Tok::Punct('=', false),
        Tok::Group(
            Delimiter::Parenthesis,
            seq![Tok::Ident("move"@), Tok::Punct('|', true), Tok::Punct('|', false)]
                + closure_return_toks(f.sig.output) + seq![
                Tok::Group(Delimiter::Brace, closure_body_toks(f)),
            ],
        ),
        Tok::Group(Delimiter::Parenthesis, Seq::empty()),
        Tok::Punct(';', false),
    ]
}

/// The body of the instrumented function: make the guard, call the closure,
/// forget the guard, give the result.
pub open spec fn block_toks(f: FunctionView, s: SentinelView) -> Seq<Tok> {
    guard_toks(s) + call_toks(f) + forget_toks(s) + seq![Tok::Ident("__result"@)]
}

/// The instrumented function.
///
/// It has the visibility of the function and its signature, in which only the
/// patterns of the parameters differ; its attributes, with an inlining hint
/// where they held none; and the new body.
pub open spec fn expansion(f: FunctionView, s: SentinelView) -> InstrumentedView {
    InstrumentedView {
        attrs: hinted(f.attrs),
        vis: f.vis,
        sig: SignatureView {
            constness: f.sig.constness,
            asyncness: f.sig.asyncness,
            unsafety: f.sig.unsafety,
            abi: f.sig.abi,
            ident: f.sig.ident,
            generics: f.sig.generics,
            inputs: normalized_all(f.sig.inputs),
            variadic: f.sig.variadic,
            output: f.sig.output,
            where_clause: f.sig.where_clause,
        },
        block: block_toks(f, s),
    }
}

/// The instrumented function has the name, the visibility, the generic
/// parameters with their `where` clause, and the declared return type of the
/// function, token for token, and as many parameters.
pub proof fn expansion_keeps_the_signature(f: FunctionView, s: SentinelView)
    ensures
        expansion(f, s).sig.ident == f.sig.ident,
        expansion(f, s).vis == f.vis,
        expansion(f, s).sig.generics == f.sig.generics,
        expansion(f, s).sig.where_clause == f.sig.where_clause,
        expansion(f, s).sig.output == f.sig.output,
        output_toks(expansion(f, s).sig.output) == output_toks(f.sig.output),
        expansion(f, s).sig.inputs.len() == f.sig.inputs.len(),
        expansion(f, s).sig.constness == f.sig.constness,
        expansion(f, s).sig.asyncness == f.sig.asyncness,
        expansion(f, s).sig.unsafety == f.sig.unsafety,
        expansion(f, s).sig.abi == f.sig.abi,
        expansion(f, s).sig.variadic == f.sig.variadic,
{
}

/// The instrumented function keeps the attributes of the function in their
/// order, and holds an inlining hint.
pub proof fn expansion_has_an_inlining_hint(f: FunctionView, s: SentinelView)
    ensures
        has_inline(expansion(f, s).attrs),
        f.attrs.len() <= expansion(f, s).attrs.len() <= f.attrs.len() + 1,
        forall|i: int| 0 <= i < f.attrs.len() ==> expansion(f, s).attrs[i] == f.attrs[i],
        has_inline(f.attrs) ==> expansion(f, s).attrs == f.attrs,
{
    if !has_inline(f.attrs) {
        let hinted = f.attrs.push(inline_hint());
        assert(is_inline(hinted[f.attrs.len() as int]));
    }
}

/// A typed parameter is declared under its made-up name, with its attributes
/// and its type, and the closure binds its pattern to that name: the
/// statements for the parameters stand at the head of the closure, in the
/// order of the parameters.
pub proof fn expansion_binds_each_parameter_again(f: FunctionView, s: SentinelView, i: int)
    requires
        0 <= i < f.sig.inputs.len(),
        f.sig.inputs[i] is Typed,
        !is_receiver(f.sig.inputs[i]),
    ensures
        expansion(f, s).sig.inputs[i] == (ParamView::Typed {
            attrs: f.sig.inputs[i]->Typed_attrs,
            pattern: PatternView::Ident {
                by_ref: false,
                mutable: true,
                name: numbered(i as nat),
                subpattern: Seq::empty(),
            },
            ty: f.sig.inputs[i]->Typed_ty,
        }),
        rebindings(f.sig.inputs, (i + 1) as nat) == rebindings(f.sig.inputs, i as nat) + seq![
            Tok::Ident("let"@),
        ] + pattern_toks(f.sig.inputs[i]->Typed_pattern) + seq![
            Tok::Punct('=', false),
            Tok::Ident(numbered(i as nat)),
            Tok::Punct(';', false),
        ],
        closure_body_toks(f).subrange(0, rebindings(f.sig.inputs, f.sig.inputs.len()).len() as int)
            == rebindings(f.sig.inputs, f.sig.inputs.len()),
{
    let head = rebindings(f.sig.inputs, f.sig.inputs.len());
    assert(closure_body_toks(f).subrange(0, head.len() as int) =~= head);
    assert(rebindings(f.sig.inputs, (i + 1) as nat) =~= rebindings(f.sig.inputs, i as nat)
        + rebinding(f.sig.inputs[i], i as nat));
}

/// A receiver stays the receiver, and is no longer declared `mut` where it is
/// taken by value. The closure binds `__self` to it, with `mut` where the
/// receiver was so declared, and holds the body after the pass that has the
/// receiver in scope, where a use of the receiver reads `__self`.
pub proof fn expansion_renames_the_receiver(f: FunctionView, s: SentinelView, i: int)
    requires
        0 <= i < f.sig.inputs.len(),
        is_receiver(f.sig.inputs[i]),
    ensures
        is_receiver(expansion(f, s).sig.inputs[i]),
        !is_mutable_value(expansion(f, s).sig.inputs[i]),
        rebinding(f.sig.inputs[i], i as nat) == seq![Tok::Ident("let"@)] + (if is_mutable_value(
            f.sig.inputs[i],
        ) {
            seq![Tok::Ident("mut"@)]
        } else {
            Seq::empty()
        }) + seq![
            Tok::Ident("__self"@),
            Tok::Punct('=', false),
            Tok::Ident("self"@),
            Tok::Punct(';', false),
        ],
        closure_body_toks(f) == rebindings(f.sig.inputs, f.sig.inputs.len()) + rebound_all(
            f.body,
            f.body.len(),
            true,
        ),
        rebound(SyntaxView::Path(seq![Tok::Ident("self"@)]), true) == seq![Tok::Ident("__self"@)],
{
    assert(has_receiver(f.sig.inputs));
}

/// Where the function has no receiver, the closure holds the body as it was.
pub proof fn expansion_keeps_the_body_without_receiver(f: FunctionView)
    requires
        !has_receiver(f.sig.inputs),
    ensures
        closure_body_toks(f) == rebindings(f.sig.inputs, f.sig.inputs.len()) + rebound_all(
            f.body,
            f.body.len(),
            false,
        ),
{
}

/// Appends `::` to `out`.
fn push_path_sep(out: &mut Vec<Token>)
    ensures
        toks(final(out)@) == toks(old(out)@) + path_sep(),
{
    broadcast use crate::token::group_toks;

    out.push(joint(':'));
    out.push(punct(':'));
    assert(toks(out@) =~= toks(old(out)@) + path_sep());
}

/// `extern "C" { #[link_name = "name"] fn trigger() -> !; }`
fn trigger_declaration_tokens(name: &str) -> (out: Vec<Token>)
    ensures
        toks(out@) == trigger_declaration(name@),
{
    broadcast use crate::token::group_toks;

    let mut attribute: Vec<Token> = Vec::new();
    attribute.push(ident("link_name"));
    attribute.push(punct('='));
    attribute.push(string(name));
    assert(toks(attribute@) =~= seq![
        Tok::Ident("link_name"@),
        Tok::Punct('=', false),
        Tok::Str(name@),
    ]);
    let mut inside: Vec<Token> = Vec::new();
    inside.push(punct('#'));
    inside.push(group(Delimiter::Bracket, attribute));
    inside.push(ident("fn"));
    inside.push(ident("trigger"));
    inside.push(group(Delimiter::Parenthesis, Vec::new()));
    inside.push(joint('-'));
    inside.push(punct('>'));
    inside.push(punct('!'));
    inside.push(punct(';'));
    assert(toks(inside@) =~= trigger_declaration(name@)[2]->Group_1);
    let mut out: Vec<Token> = Vec::new();
    out.push(ident("extern"));
    out.push(string("C"));
    out.push(group(Delimiter::Brace, inside));
    assert(toks(out@) =~= trigger_declaration(name@));
    out
}

/// `impl core::ops::Drop for __NoPanic { .. }`
fn drop_impl_tokens() -> (out: Vec<Token>)
    ensures
        toks(out@) == drop_impl(),
{
    broadcast use crate::token::group_toks;

    let mut call: Vec<Token> = Vec::new();
    call.push(ident("trigger"));
    call.push(group(Delimiter::Parenthesis, Vec::new()));
    call.push(punct(';'));
    assert(toks(call@) =~= seq![
        Tok::Ident("trigger"@),
        Tok::Group(Delimiter::Parenthesis, Seq::empty()),
        Tok::Punct(';', false),
    ]);
    let mut body: Vec<Token> = Vec::new();
    body.push(ident("unsafe"));
    body.push(group(Delimiter::Brace, call));
    assert(toks(body@) =~= drop_method()[3]->Group_1);
    let mut receiver: Vec<Token> = Vec::new();
    receiver.push(punct('&'));
    receiver.push(ident("mut"));
    receiver.push(ident("self"));
    assert(toks(receiver@) =~= drop_method()[2]->Group_1);
    let mut method: Vec<Token> = Vec::new();
    method.push(ident("fn"));
    method.push(ident("drop"));
    method.push(group(Delimiter::Parenthesis, receiver));
    method.push(group(Delimiter::Brace, body));
    assert(toks(method@) =~= drop_method());
    let mut out: Vec<Token> = Vec::new();
    out.push(ident("impl"));
    out.push(ident("core"));
    push_path_sep(&mut out);
    out.push(ident("ops"));
    push_path_sep(&mut out);
    out.push(ident("Drop"));
    out.push(ident("for"));
    out.push(ident("__NoPanic"));
    out.push(group(Delimiter::Brace, method));
    assert(toks(out@) =~= drop_impl());
    out
}

/// `let __guard = <guard>;`
fn guard_binding_tokens(guard: Vec<Token>) -> (out: Vec<Token>)
    ensures
        toks(out@) == guard_binding(toks(guard@)),
{
    broadcast use crate::token::group_toks;

    let mut out: Vec<Token> = Vec::new();
    out.push(ident("let"));
    out.push(ident("__guard"));
    out.push(punct('='));
    append_tokens(&mut out, guard);
    out.push(punct(';'));
    assert(toks(out@) =~= guard_binding(toks(guard@)));
    out
}

/// The statements that declare and make the guard.
fn guard_tokens(sentinel: &Sentinel) -> (out: Vec<Token>)
    ensures
        toks(out@) == guard_toks(sentinel@),
{
    broadcast use crate::token::group_toks;

    match sentinel {
        Sentinel::Link(name) => {
            let mut guard: Vec<Token> = Vec::new();
            guard.push(ident("__NoPanic"));
            assert(toks(guard@) =~= seq![Tok::Ident("__NoPanic"@)]);
            let mut out: Vec<Token> = Vec::new();
            out.push(ident("struct"));
            out.push(ident("__NoPanic"));
            out.push(punct(';'));
            append_tokens(&mut out, trigger_declaration_tokens(name.as_str()));
            append_tokens(&mut out, drop_impl_tokens());
            append_tokens(&mut out, guard_binding_tokens(guard));
            assert(toks(out@) =~= guard_toks(sentinel@));
            out
        },
        Sentinel::Abort => {
            let mut guard: Vec<Token> = Vec::new();
            guard.push(ident("noexcept"));
            push_path_sep(&mut guard);
            guard.push(ident("__private"));
            push_path_sep(&mut guard);
            guard.push(ident("AbortOnDrop"));
            assert(toks(guard@) =~= abort_guard_path());
            guard_binding_tokens(guard)
        },
        Sentinel::Absent => {
            let out: Vec<Token> = Vec::new();
            assert(toks(out@) =~= Seq::<Tok>::empty());
            out
        },
    }
}

/// The statement that forgets the guard.
fn forget_tokens(sentinel: &Sentinel) -> (out: Vec<Token>)
    ensures
        toks(out@) == forget_toks(sentinel@),
{
    broadcast use crate::token::group_toks;

    let mut out: Vec<Token> = Vec::new();
    match sentinel {
        Sentinel::Absent => {
            assert(toks(out@) =~= Seq::<Tok>::empty());
        },
        _ => {
            let mut guard: Vec<Token> = Vec::new();
            guard.push(ident("__guard"));
            assert(toks(guard@) =~= seq![Tok::Ident("__guard"@)]);
            out.push(ident("core"));
            push_path_sep(&mut out);
            out.push(ident("mem"));
            push_path_sep(&mut out);
            out.push(ident("forget"));
            out.push(group(Delimiter::Parenthesis, guard));
            out.push(punct(';'));
            assert(toks(out@) =~= forget_toks(sentinel@));
        },
    }
    out
}

/// The return type that the closure declares.
fn closure_return_tokens(output: &Option<TypeShape>) -> (out: Vec<Token>)
    ensures
        toks(out@) == closure_return_toks(
            match *output {
                Some(t) => Some(t@),
                None => None,
            },
        ),
{
    broadcast use crate::token::group_toks;

    let mut out: Vec<Token> = Vec::new();
    out.push(joint('-'));
    out.push(punct('>'));
    match output {
        Some(t) => {
            let mut inferred = t.clone();
            make_impl_trait_wild(&mut inferred);
            append_tokens(&mut out, type_tokens(&inferred));
            assert(toks(out@) =~= seq![Tok::Punct('-', true), Tok::Punct('>', false)] + type_toks(
                wild(t@),
            ));
        },
        None => {
            out.push(group(Delimiter::Parenthesis, Vec::new()));
            assert(toks(out@) =~= seq![Tok::Punct('-', true), Tok::Punct('>', false)] + seq![
                Tok::Group(Delimiter::Parenthesis, Seq::empty()),
            ]);
        },
    }
    out
}

/// Whether an attribute is an inlining hint.
fn attribute_is_inline(a: &Attribute) -> (b: bool)
    ensures
        b == is_inline(a@),
{
    broadcast use crate::token::group_toks;

    if a.path.len() != 1 {
        return false;
    }
    let b = crate::token::is_ident(&a.path[0], "inline");
    assert(b == is_inline(a@)) by {
        if is_inline(a@) {
            assert(toks(a.path@)[0] == Tok::Ident("inline"@));
        }
        if b {
            assert(toks(a.path@) =~= seq![Tok::Ident("inline"@)]);
        }
    }
    b
}

/// The attributes with an inlining hint.
fn add_inline_hint(attrs: Vec<Attribute>) -> (out: Vec<Attribute>)
    ensures
        views(out@) == hinted(views(attrs@)),
{
    let mut out = attrs;
    let mut i: usize = 0;
    while i < out.len()
        invariant
            out@ == attrs@,
            i <= out.len(),
            forall|j: int| 0 <= j < i ==> !is_inline(#[trigger] views(attrs@)[j]),
        decreases out.len() - i,
    {
        if attribute_is_inline(&out[i]) {
            assert(is_inline(views(attrs@)[i as int]));
            return out;
        }
        i += 1;
    }
    let mut path: Vec<Token> = Vec::new();
    path.push(ident("inline"));
    assert(toks(path@) =~= seq![Tok::Ident("inline"@)]);
    let hint = Attribute { inner: false, path, arguments: Vec::new() };
    assert(toks(hint.arguments@) =~= Seq::<Tok>::empty());
    out.push(hint);
    assert(views(out@) =~= views(attrs@).push(inline_hint()));
    out
}

/// Instruments `function` with the given guard.
pub fn expand(function: FunctionItem, sentinel: Sentinel) -> (out: Instrumented)
    ensures
        out@ == expansion(function@, sentinel@),
{
    broadcast use crate::token::group_toks;

    let ghost f = function@;
    let FunctionItem { attrs, vis, sig, body } = function;
    let Signature {
        constness,
        asyncness,
        unsafety,
        abi,
        ident: name,
        generics,
        inputs,
        variadic,
        output,
        where_clause,
    } = sig;
    let normalized = normalize_inputs(&inputs);

    let mut inside = normalized.rebindings;
    append_tokens(&mut inside, rebind(&body, normalized.receiver));
    assert(toks(inside@) == closure_body_toks(f));

    let mut closure: Vec<Token> = Vec::new();
    closure.push(ident("move"));
    closure.push(joint('|'));
    closure.push(punct('|'));
    append_tokens(&mut closure, closure_return_tokens(&output));
    closure.push(group(Delimiter::Brace, inside));
    assert(toks(closure@) =~= call_toks(f)[3]->Group_1);

    let mut block = guard_tokens(&sentinel);
    let ghost guard = toks(block@);
    block.push(ident("let"));
    block.push(ident("__result"));
    block.push(punct('='));
    block.push(group(Delimiter::Parenthesis, closure));
    block.push(group(Delimiter::Parenthesis, Vec::new()));
    block.push(punct(';'));
    assert(toks(block@) =~= guard + call_toks(f));
    append_tokens(&mut block, forget_tokens(&sentinel));
    block.push(ident("__result"));
    assert(toks(block@) =~= block_toks(f, sentinel@));

    Instrumented {
        attrs: add_inline_hint(attrs),
        vis,
        sig: Signature {
            constness,
            asyncness,
            unsafety,
            abi,
            ident: name,
            generics,
            inputs: normalized.inputs,
            variadic,
            output,
            where_clause,
        },
        block,
    }
}

} // verus!
