//! Whole functions through the attributes: each function is parsed, handed to
//! the library, and what comes back is compared with the expected source,
//! token by token.

use no_panic::abort_on_panic;
use no_panic::function::{Attribute, FunctionItem, Param, Pattern, Signature};
use no_panic::may_panic;
use no_panic::no_panic;
use no_panic::parse::{Attr, ParseError};
use no_panic::rebind::Syntax;
use no_panic::token::{Delimiter, Token};
use no_panic::types::TypeShape;
use proc_macro2::{Group, Ident, Literal, Punct, Spacing, Span, TokenStream, TokenTree};
use quote::ToTokens;
use syn::visit_mut::VisitMut;

const PATH: &str = "__syntax_path";
const ITEM: &str = "__syntax_item";
const MACRO: &str = "__syntax_macro";

fn delimiter(d: proc_macro2::Delimiter) -> Delimiter {
    match d {
        proc_macro2::Delimiter::Parenthesis => Delimiter::Parenthesis,
        proc_macro2::Delimiter::Brace => Delimiter::Brace,
        proc_macro2::Delimiter::Bracket => Delimiter::Bracket,
        proc_macro2::Delimiter::None => Delimiter::Invisible,
    }
}

fn token(tree: TokenTree) -> Token {
    match tree {
        TokenTree::Group(g) => Token::Group(delimiter(g.delimiter()), tokens(g.stream())),
        TokenTree::Ident(i) => Token::Ident(i.to_string()),
        TokenTree::Punct(p) => Token::Punct(p.as_char(), p.spacing() == Spacing::Joint),
        TokenTree::Literal(l) => Token::Literal(l.to_string()),
    }
}

fn tokens(stream: TokenStream) -> Vec<Token> {
    stream.into_iter().map(token).collect()
}

fn printed<T: ToTokens>(node: &T) -> Vec<Token> {
    tokens(node.to_token_stream())
}

fn tagged(tag: &str, rest: TokenStream) -> TokenStream {
    let mut inner = TokenStream::new();
    inner.extend([TokenTree::Ident(Ident::new(tag, Span::call_site()))]);
    inner.extend(rest);
    inner
}

struct Marker;

impl VisitMut for Marker {
    fn visit_expr_mut(&mut self, e: &mut syn::Expr) {
        syn::visit_mut::visit_expr_mut(self, e);
        if let syn::Expr::Path(p) = e {
            if p.attrs.is_empty() && p.qself.is_none() {
                let group = Group::new(
                    proc_macro2::Delimiter::None,
                    tagged(PATH, p.path.to_token_stream()),
                );
                *e = syn::Expr::Verbatim(TokenStream::from(TokenTree::Group(group)));
            }
        }
    }

    fn visit_item_mut(&mut self, item: &mut syn::Item) {
        syn::visit_mut::visit_item_mut(self, item);
        let group = Group::new(
            proc_macro2::Delimiter::None,
            tagged(ITEM, item.to_token_stream()),
        );
        *item = syn::Item::Verbatim(TokenStream::from(TokenTree::Group(group)));
    }

    fn visit_macro_mut(&mut self, m: &mut syn::Macro) {
        m.tokens = tagged(MACRO, m.tokens.clone());
    }
}

fn tag_of(g: &Group) -> Option<String> {
    match g.stream().into_iter().next() {
        Some(TokenTree::Ident(i)) => Some(i.to_string()),
        _ => None,
    }
}

fn syntax(stream: TokenStream) -> Vec<Syntax> {
    stream
        .into_iter()
        .map(|tree| match tree {
            TokenTree::Group(g) => match tag_of(&g) {
                Some(tag) if tag == PATH => {
                    Syntax::Path(tokens(g.stream().into_iter().skip(1).collect()))
                }
                Some(tag) if tag == ITEM => {
                    Syntax::Item(syntax(g.stream().into_iter().skip(1).collect()))
                }
                Some(tag) if tag == MACRO => Syntax::Macro(
                    delimiter(g.delimiter()),
                    tokens(g.stream().into_iter().skip(1).collect()),
                ),
                _ => Syntax::Group(delimiter(g.delimiter()), syntax(g.stream())),
            },
            other => Syntax::Token(token(other)),
        })
        .collect()
}

fn body(block: &syn::Block) -> Vec<Syntax> {
    let mut block = block.clone();
    Marker.visit_block_mut(&mut block);
    let mut stream = TokenStream::new();
    for stmt in &block.stmts {
        stmt.to_tokens(&mut stream);
    }
    syntax(stream)
}

fn flush(run: &mut TokenStream, pieces: &mut Vec<TypeShape>) {
    if !run.is_empty() {
        pieces.push(TypeShape::Verbatim(tokens(std::mem::take(run))));
    }
}

fn path_pieces(qself: &Option<syn::QSelf>, path: &syn::Path) -> Vec<TypeShape> {
    let mut pieces = Vec::new();
    let mut run = TokenStream::new();
    if let Some(q) = qself {
        q.lt_token.to_tokens(&mut run);
        q.ty.to_tokens(&mut run);
        if q.position > 0 {
            run.extend([TokenTree::Ident(Ident::new("as", Span::call_site()))]);
        } else {
            q.gt_token.to_tokens(&mut run);
        }
    }
    path.leading_colon.to_tokens(&mut run);
    for (i, pair) in path.segments.pairs().enumerate() {
        let segment = pair.value();
        segment.ident.to_tokens(&mut run);
        match &segment.arguments {
            syn::PathArguments::None => {}
            syn::PathArguments::Parenthesized(p) => p.to_tokens(&mut run),
            syn::PathArguments::AngleBracketed(a) => {
                a.colon2_token.to_tokens(&mut run);
                a.lt_token.to_tokens(&mut run);
                for arg in a.args.pairs() {
                    match arg.value() {
                        syn::GenericArgument::Type(t) => {
                            flush(&mut run, &mut pieces);
                            pieces.push(type_shape(t));
                        }
                        other => other.to_tokens(&mut run),
                    }
                    arg.punct().to_tokens(&mut run);
                }
                a.gt_token.to_tokens(&mut run);
            }
        }
        if let Some(q) = qself {
            if i + 1 == q.position {
                q.gt_token.to_tokens(&mut run);
            }
        }
        pair.punct().to_tokens(&mut run);
    }
    flush(&mut run, &mut pieces);
    pieces
}

fn bound_pieces(t: &syn::TypeTraitObject) -> Vec<TypeShape> {
    let mut pieces = Vec::new();
    let mut run = TokenStream::new();
    t.dyn_token.to_tokens(&mut run);
    for pair in t.bounds.pairs() {
        match pair.value() {
            syn::TypeParamBound::Trait(b) => {
                b.modifier.to_tokens(&mut run);
                b.lifetimes.to_tokens(&mut run);
                flush(&mut run, &mut pieces);
                pieces.push(TypeShape::Path(path_pieces(&None, &b.path)));
            }
            other => other.to_tokens(&mut run),
        }
        pair.punct().to_tokens(&mut run);
    }
    flush(&mut run, &mut pieces);
    pieces
}

fn type_shape(ty: &syn::Type) -> TypeShape {
    match ty {
        syn::Type::ImplTrait(t) => TypeShape::ImplTrait(printed(t)),
        syn::Type::Infer(_) => TypeShape::Infer,
        syn::Type::Array(t) => TypeShape::Array(Box::new(type_shape(&t.elem)), printed(&t.len)),
        syn::Type::Group(t) => TypeShape::Group(Box::new(type_shape(&t.elem))),
        syn::Type::Paren(t) => TypeShape::Paren(Box::new(type_shape(&t.elem))),
        syn::Type::Path(t) => TypeShape::Path(path_pieces(&t.qself, &t.path)),
        syn::Type::Ptr(t) => {
            let mut front = TokenStream::new();
            t.star_token.to_tokens(&mut front);
            t.const_token.to_tokens(&mut front);
            t.mutability.to_tokens(&mut front);
            TypeShape::Ptr(tokens(front), Box::new(type_shape(&t.elem)))
        }
        syn::Type::Reference(t) => {
            let mut front = TokenStream::new();
            t.and_token.to_tokens(&mut front);
            t.lifetime.to_tokens(&mut front);
            t.mutability.to_tokens(&mut front);
            TypeShape::Reference(tokens(front), Box::new(type_shape(&t.elem)))
        }
        syn::Type::Slice(t) => TypeShape::Slice(Box::new(type_shape(&t.elem))),
        syn::Type::TraitObject(t) => TypeShape::TraitObject(bound_pieces(t)),
        syn::Type::Tuple(t) => {
            let mut pieces = Vec::new();
            for pair in t.elems.pairs() {
                pieces.push(type_shape(pair.value()));
                if let Some(comma) = pair.punct() {
                    pieces.push(TypeShape::Verbatim(printed(comma)));
                }
            }
            TypeShape::Tuple(pieces)
        }
        syn::Type::BareFn(t) => TypeShape::BareFn(printed(t)),
        syn::Type::Macro(t) => TypeShape::Macro(printed(t)),
        syn::Type::Never(_) => TypeShape::Never,
        other => TypeShape::Verbatim(printed(other)),
    }
}

fn attribute(a: &syn::Attribute) -> Attribute {
    let path = printed(a.path());
    let arguments = a.meta.to_token_stream().into_iter().skip(path.len()).collect();
    Attribute {
        inner: matches!(a.style, syn::AttrStyle::Inner(_)),
        path,
        arguments: tokens(arguments),
    }
}

fn attributes(attrs: &[syn::Attribute]) -> Vec<Token> {
    let mut stream = TokenStream::new();
    for a in attrs {
        a.to_tokens(&mut stream);
    }
    tokens(stream)
}

fn pattern(pat: &syn::Pat) -> Pattern {
    match pat {
        syn::Pat::Ident(p) if p.attrs.is_empty() => {
            let mut subpattern = TokenStream::new();
            if let Some((at, sub)) = &p.subpat {
                at.to_tokens(&mut subpattern);
                sub.to_tokens(&mut subpattern);
            }
            Pattern::Ident {
                by_ref: p.by_ref.is_some(),
                mutable: p.mutability.is_some(),
                name: p.ident.to_string(),
                subpattern: tokens(subpattern),
            }
        }
        other => Pattern::Other(printed(other)),
    }
}

fn param(arg: &syn::FnArg) -> Param {
    match arg {
        syn::FnArg::Typed(t) => Param::Typed {
            attrs: attributes(&t.attrs),
            pattern: pattern(&t.pat),
            ty: printed(&t.ty),
        },
        syn::FnArg::Receiver(r) => {
            let mut ty = TokenStream::new();
            if let Some(colon) = &r.colon_token {
                colon.to_tokens(&mut ty);
                r.ty.to_tokens(&mut ty);
            }
            Param::Receiver {
                attrs: attributes(&r.attrs),
                reference: r.reference.is_some(),
                lifetime: r.lifetime().map(printed).unwrap_or_default(),
                mutable: r.mutability.is_some(),
                ty: tokens(ty),
            }
        }
    }
}

fn signature(sig: &syn::Signature) -> Signature {
    Signature {
        constness: sig.constness.is_some(),
        asyncness: sig.asyncness.is_some(),
        unsafety: sig.unsafety.is_some(),
        abi: printed(&sig.abi),
        ident: sig.ident.to_string(),
        generics: printed(&sig.generics),
        inputs: sig.inputs.iter().map(param).collect(),
        variadic: printed(&sig.variadic),
        output: match &sig.output {
            syn::ReturnType::Default => None,
            syn::ReturnType::Type(_, ty) => Some(type_shape(ty)),
        },
        where_clause: printed(&sig.generics.where_clause),
    }
}

fn function(source: &str) -> FunctionItem {
    let item: syn::ItemFn = syn::parse_str(source).expect("the function parses");
    FunctionItem {
        attrs: item.attrs.iter().map(attribute).collect(),
        vis: printed(&item.vis),
        sig: signature(&item.sig),
        body: body(&item.block),
    }
}

fn tree(t: &Token) -> TokenTree {
    match t {
        Token::Ident(name) => match name.strip_prefix("r#") {
            Some(raw) => TokenTree::Ident(Ident::new_raw(raw, Span::call_site())),
            None => TokenTree::Ident(Ident::new(name, Span::call_site())),
        },
        Token::Punct(c, joint) => TokenTree::Punct(Punct::new(
            *c,
            if *joint { Spacing::Joint } else { Spacing::Alone },
        )),
        Token::Literal(text) => TokenTree::Literal(text.parse::<Literal>().expect("a literal")),
        Token::Str(value) => TokenTree::Literal(Literal::string(value)),
        Token::Group(d, inner) => TokenTree::Group(Group::new(
            match d {
                Delimiter::Parenthesis => proc_macro2::Delimiter::Parenthesis,
                Delimiter::Brace => proc_macro2::Delimiter::Brace,
                Delimiter::Bracket => proc_macro2::Delimiter::Bracket,
                Delimiter::Invisible => proc_macro2::Delimiter::None,
            },
            stream(inner),
        )),
    }
}

fn stream(tokens: &[Token]) -> TokenStream {
    tokens.iter().map(tree).collect()
}

fn text(tokens: &[Token]) -> String {
    stream(tokens).to_string()
}

fn source(expected: &str) -> String {
    let item: syn::ItemFn = syn::parse_str(expected).expect("the expected source parses");
    item.to_token_stream().to_string()
}

const GUARD: &str = "struct __NoPanic; \
    extern \"C\" { #[link_name = \"\\n\\nERROR[no-panic]: detected panic in function `NAME`\\n\"] fn trigger() -> !; } \
    impl core::ops::Drop for __NoPanic { fn drop(&mut self) { unsafe { trigger(); } } } \
    let __guard = __NoPanic;";

const FORGET: &str = "core::mem::forget(__guard); __result";

fn guarded(name: &str, head: &str, closure: &str) -> String {
    source(&format!(
        "{} {{ {} let __result = ({})(); {} }}",
        head,
        GUARD.replace("NAME", name),
        closure,
        FORGET
    ))
}

fn expanded(input: &str) -> String {
    let out = no_panic(&Vec::new(), function(input)).expect("the attribute accepts the function");
    source(&text(&out))
}

#[test]
fn test_readme() {
    assert_eq!(
        expanded("fn demo(s: &str) -> &str { &s[1..] }"),
        guarded(
            "demo",
            "#[inline] fn demo(mut __arg0: &str,) -> &str",
            "move || -> &str { let s = __arg0; &s[1..] }"
        )
    );
}

#[test]
fn the_link_name_is_the_message_that_names_the_function() {
    let out = no_panic(&Vec::new(), function("fn demo(s: &str) -> &str { &s[1..] }")).unwrap();
    let printed = text(&out);
    assert!(printed.contains("detected panic in function"));
    assert!(printed
        .contains("\"\\n\\nERROR[no-panic]: detected panic in function `demo`\\n\""));
}

#[test]
fn test_method_in_impl() {
    assert_eq!(
        expanded("fn demo(self) -> &'static str { \"test\" }"),
        guarded(
            "demo",
            "#[inline] fn demo(self,) -> &'static str",
            "move || -> &'static str { let __self = self; \"test\" }"
        )
    );
}

#[test]
fn test_lifetime_elision() {
    assert_eq!(
        expanded("fn demo(buffer: &mut Buffer) -> &[u8] { &buffer.bytes[..] }"),
        guarded(
            "demo",
            "#[inline] fn demo(mut __arg0: &mut Buffer,) -> &[u8]",
            "move || -> &[u8] { let buffer = __arg0; &buffer.bytes[..] }"
        )
    );
}

#[test]
fn test_receiver_lifetime_elision() {
    assert_eq!(
        expanded("fn demo(&mut self, _s: &str) -> &[u8] { &self.bytes[..] }"),
        guarded(
            "demo",
            "#[inline] fn demo(&mut self, mut __arg1: &str,) -> &[u8]",
            "move || -> &[u8] { let __self = self; let _s = __arg1; &__self.bytes[..] }"
        )
    );
}

#[test]
fn test_ref_argument() {
    assert_eq!(
        expanded("fn demo(ref i: i32) -> i32 { *i }"),
        guarded(
            "demo",
            "#[inline] fn demo(mut __arg0: i32,) -> i32",
            "move || -> i32 { let ref i = __arg0; *i }"
        )
    );
}

#[test]
fn test_mut_argument() {
    assert_eq!(
        expanded("fn demo(mut i: i32) -> i32 { i += 1; i }"),
        guarded(
            "demo",
            "#[inline] fn demo(mut __arg0: i32,) -> i32",
            "move || -> i32 { let mut i = __arg0; i += 1; i }"
        )
    );
}

#[test]
fn test_ref_mut_argument() {
    assert_eq!(
        expanded("fn demo(ref mut i: i32) -> i32 { *i += 1; *i }"),
        guarded(
            "demo",
            "#[inline] fn demo(mut __arg0: i32,) -> i32",
            "move || -> i32 { let ref mut i = __arg0; *i += 1; *i }"
        )
    );
}

#[test]
fn a_destructuring_pattern_is_bound_again_as_it_was() {
    assert_eq!(
        expanded("fn sum((a, b): (i32, i32), Point { x, .. }: Point) -> i32 { a + b + x }"),
        guarded(
            "sum",
            "#[inline] fn sum(mut __arg0: (i32, i32), mut __arg1: Point,) -> i32",
            "move || -> i32 { let (a, b) = __arg0; let Point { x, .. } = __arg1; a + b + x }"
        )
    );
}

#[test]
fn test_borrow_from_mut_self() {
    assert_eq!(
        expanded("fn get_mut(&mut self) -> &mut usize { &mut self.data }"),
        guarded(
            "get_mut",
            "#[inline] fn get_mut(&mut self,) -> &mut usize",
            "move || -> &mut usize { let __self = self; &mut __self.data }"
        )
    );
}

#[test]
fn test_self_in_macro() {
    assert_eq!(
        expanded("fn get_mut(&mut self) -> usize { id![self.data] }"),
        guarded(
            "get_mut",
            "#[inline] fn get_mut(&mut self,) -> usize",
            "move || -> usize { let __self = self; id![__self.data] }"
        )
    );
}

#[test]
fn test_self_in_macro_containing_fn() {
    assert_eq!(
        expanded(
            "fn get_mut(&mut self) -> usize { \
                 let _ = emit!({ impl S { pub fn f(self) {} } }); \
                 self.data \
             }"
        ),
        guarded(
            "get_mut",
            "#[inline] fn get_mut(&mut self,) -> usize",
            "move || -> usize { \
                 let __self = self; \
                 let _ = emit!({ impl S { pub fn f(self) {} } }); \
                 __self.data \
             }"
        )
    );
}

#[test]
fn an_item_inside_the_body_keeps_its_own_self() {
    assert_eq!(
        expanded(
            "fn get(&self) -> usize { \
                 impl T { fn g(&self) -> usize { id!(self.x) + self.y } } \
                 self.data \
             }"
        ),
        guarded(
            "get",
            "#[inline] fn get(&self,) -> usize",
            "move || -> usize { \
                 let __self = self; \
                 impl T { fn g(&self) -> usize { id!(self.x) + self.y } } \
                 __self.data \
             }"
        )
    );
}

#[test]
fn a_qualified_self_is_no_use_of_the_receiver() {
    assert_eq!(
        expanded("fn get(&self) -> usize { self::helper(self.data) }"),
        guarded(
            "get",
            "#[inline] fn get(&self,) -> usize",
            "move || -> usize { let __self = self; self::helper(__self.data) }"
        )
    );
}

#[test]
fn the_receiver_is_renamed_wherever_an_expression_can_stand() {
    let body = "if self.a { return self; } \
        match self { _ => {} } \
        for x in self { let _ = x; } \
        while self.b() { self.c = self.d + 1; } \
        let f = |y| self.e(y); \
        let g = (&self, *self, -self, !self, self as T, self?, self[0], [self; 2]); \
        let h = S { a: self, ..self }; \
        let i = self..self; \
        loop { break self; }";
    let input = format!("fn all(&self) {{ {} }}", body);
    let renamed = body.replace("self", "__self");
    assert_eq!(
        expanded(&input),
        guarded(
            "all",
            "#[inline] fn all(&self,)",
            &format!("move || -> () {{ let __self = self; {} }}", renamed)
        )
    );
}

#[test]
fn test_self_with_std_pin() {
    assert_eq!(
        expanded("fn f(mut self: Pin<&mut Self>) { let _ = self.as_mut(); }"),
        guarded(
            "f",
            "#[inline] fn f(self: Pin<&mut Self>,)",
            "move || -> () { let mut __self = self; let _ = __self.as_mut(); }"
        )
    );
}

#[test]
fn a_receiver_by_value_loses_its_mut_in_the_signature() {
    assert_eq!(
        expanded("fn bump(mut self) -> Self { self.n += 1; self }"),
        guarded(
            "bump",
            "#[inline] fn bump(self,) -> Self",
            "move || -> Self { let mut __self = self; __self.n += 1; __self }"
        )
    );
}

#[test]
fn test_deref_coercion() {
    assert_eq!(
        expanded("pub fn f(s: &str) -> &str { &s }"),
        guarded(
            "f",
            "#[inline] pub fn f(mut __arg0: &str,) -> &str",
            "move || -> &str { let s = __arg0; &s }"
        )
    );
}

#[test]
fn test_return_impl_trait() {
    assert_eq!(
        expanded("pub fn f() -> io::Result<impl io::Write> { Ok(Vec::new()) }"),
        guarded(
            "f",
            "#[inline] pub fn f() -> io::Result<impl io::Write>",
            "move || -> io::Result<_> { Ok(Vec::new()) }"
        )
    );
}

#[test]
fn an_opaque_type_is_left_to_inference_at_any_depth() {
    assert_eq!(
        expanded(
            "fn f() -> (&'static [impl A], [impl B; 2], *const impl C, Box<dyn Fn<impl D> + Send>, (impl E)) { loop {} }"
        ),
        guarded(
            "f",
            "#[inline] fn f() -> (&'static [impl A], [impl B; 2], *const impl C, Box<dyn Fn<impl D> + Send>, (impl E))",
            "move || -> (&'static [_], [_; 2], *const _, Box<dyn Fn<_> + Send>, (_)) { loop {} }"
        )
    );
}

#[test]
fn test_conditional_return() {
    assert_eq!(
        expanded("pub fn f(i: i32) { if i < 0 { return; } }"),
        guarded(
            "f",
            "#[inline] pub fn f(mut __arg0: i32,)",
            "move || -> () { let i = __arg0; if i < 0 { return; } }"
        )
    );
}

#[test]
fn test_conditional_return_macro() {
    assert_eq!(
        expanded("pub fn f(i: i32) { return_if_negative!(i); }"),
        guarded(
            "f",
            "#[inline] pub fn f(mut __arg0: i32,)",
            "move || -> () { let i = __arg0; return_if_negative!(i); }"
        )
    );
}

#[test]
fn the_signature_is_kept() {
    let input = "#[doc = \"x\"] pub(crate) unsafe extern \"C\" fn pick<'a, T: Copy>(xs: &'a [T], i: usize) -> Option<&'a T> where T: 'a { xs.get(i) }";
    let printed = expanded(input);
    let before: syn::ItemFn = syn::parse_str(input).unwrap();
    let after: syn::ItemFn = syn::parse_str(&printed).unwrap();
    assert_eq!(after.sig.ident, before.sig.ident);
    assert_eq!(
        after.vis.to_token_stream().to_string(),
        before.vis.to_token_stream().to_string()
    );
    assert_eq!(
        after.sig.generics.to_token_stream().to_string(),
        before.sig.generics.to_token_stream().to_string()
    );
    assert_eq!(
        after.sig.generics.where_clause.to_token_stream().to_string(),
        before.sig.generics.where_clause.to_token_stream().to_string()
    );
    assert_eq!(
        after.sig.output.to_token_stream().to_string(),
        before.sig.output.to_token_stream().to_string()
    );
    assert_eq!(after.sig.inputs.len(), before.sig.inputs.len());
    assert_eq!(
        after.sig.abi.to_token_stream().to_string(),
        before.sig.abi.to_token_stream().to_string()
    );
    assert!(after.sig.unsafety.is_some());
}

#[test]
fn an_inlining_hint_is_added_once() {
    let hinted = expanded("#[inline(always)] fn f() {}");
    assert_eq!(hinted.matches("inline").count(), 1);
    assert!(hinted.starts_with("# [inline (always)] fn f"));
    let plain = expanded("#[cold] fn f() {}");
    assert!(plain.starts_with("# [cold] # [inline] fn f"));
}

#[test]
fn an_inner_attribute_stays_inside_the_body() {
    let printed = expanded("fn f() { #![allow(unused)] }");
    assert!(printed.starts_with("# [inline] fn f () { # ! [allow (unused)] struct __NoPanic ;"));
}

#[test]
fn abort_on_panic_guards_with_the_aborting_guard() {
    let out = abort_on_panic(&Vec::new(), function("fn demo(s: &str) -> &str { &s[1..] }"))
        .expect("the attribute accepts the function");
    assert_eq!(
        source(&text(&out)),
        source(
            "#[inline] fn demo(mut __arg0: &str,) -> &str { \
                 let __guard = noexcept::__private::AbortOnDrop; \
                 let __result = (move || -> &str { let s = __arg0; &s[1..] })(); \
                 core::mem::forget(__guard); \
                 __result \
             }"
        )
    );
}

#[test]
fn may_panic_rewrites_without_a_guard() {
    let out = may_panic(&Vec::new(), function("fn demo(s: &str) -> &str { &s[1..] }"))
        .expect("the attribute accepts the function");
    assert_eq!(
        source(&text(&out)),
        source(
            "#[inline] fn demo(mut __arg0: &str,) -> &str { \
                 let __result = (move || -> &str { let s = __arg0; &s[1..] })(); \
                 __result \
             }"
        )
    );
}

#[test]
fn ui() {
    let refused = |e: ParseError, input: &str| {
        let mut out = stream(&e.to_compile_error());
        out.extend(input.parse::<TokenStream>().unwrap());
        out.to_string()
    };
    let input = "async fn f () { }";
    assert_eq!(
        refused(no_panic(&Vec::new(), function(input)).unwrap_err(), input),
        ":: core :: compile_error ! { \"no_panic attribute on async fn is not supported\" } \
         async fn f () { }"
    );
    let input = "fn f () { }";
    assert_eq!(
        refused(
            no_panic(&tokens("never".parse().unwrap()), function(input)).unwrap_err(),
            input
        ),
        ":: core :: compile_error ! { \"unexpected token\" } fn f () { }"
    );
    assert!(syn::parse_str::<syn::ItemFn>("fn f() -> { }").is_err());
}

#[test]
fn arguments_are_refused() {
    let args = tokens("foo".parse().unwrap());
    assert_eq!(
        no_panic(&args, function("fn f() {}")),
        Err(ParseError::UnexpectedToken)
    );
    assert_eq!(
        abort_on_panic(&args, function("async fn f() {}")),
        Err(ParseError::UnexpectedToken)
    );
    assert_eq!(ParseError::UnexpectedToken.message(), "unexpected token");
}

#[test]
fn an_error_is_reported_as_the_parser_reports_its_own() {
    for e in [ParseError::UnexpectedToken, ParseError::AsyncFn(Attr::NoPanic)] {
        let ours = stream(&e.to_compile_error());
        let theirs = syn::Error::new(Span::call_site(), e.message()).to_compile_error();
        assert_eq!(ours.to_string(), theirs.to_string());
    }
    assert_eq!(
        text(&ParseError::AsyncFn(Attr::AbortOnPanic).to_compile_error()),
        ":: core :: compile_error ! { \"abort_on_panic attribute on async fn is not supported\" }"
    );
}

#[test]
fn an_async_fn_is_refused() {
    assert_eq!(
        no_panic(&Vec::new(), function("async fn f() {}")),
        Err(ParseError::AsyncFn(Attr::NoPanic))
    );
    assert_eq!(
        abort_on_panic(&Vec::new(), function("async fn f() {}")),
        Err(ParseError::AsyncFn(Attr::AbortOnPanic))
    );
    assert_eq!(
        may_panic(&Vec::new(), function("async fn f() {}")),
        Err(ParseError::AsyncFn(Attr::MayPanic))
    );
    assert_eq!(
        ParseError::AsyncFn(Attr::NoPanic).message(),
        "no_panic attribute on async fn is not supported"
    );
    assert_eq!(
        ParseError::AsyncFn(Attr::AbortOnPanic).message(),
        "abort_on_panic attribute on async fn is not supported"
    );
}

#[test]
fn operators_of_two_characters_are_joined() {
    let out = may_panic(&Vec::new(), function("fn f() {}")).unwrap();
    assert_eq!(
        text(&out),
        "# [inline] fn f () { let __result = (move || -> () { }) () ; __result }"
    );
    let out = abort_on_panic(&Vec::new(), function("fn f() {}")).unwrap();
    assert_eq!(
        text(&out),
        "# [inline] fn f () { let __guard = noexcept :: __private :: AbortOnDrop ; \
         let __result = (move || -> () { }) () ; core :: mem :: forget (__guard) ; __result }"
    );
}

#[test]
fn the_same_function_gives_the_same_tokens() {
    let input = "fn demo(&self, (a, b): (u8, u8)) -> impl Sized { m!(self, a); b }";
    assert_eq!(expanded(input), expanded(input));
}
