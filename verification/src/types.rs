//! The shapes of return types, and the rewrite that makes an opaque return
//! type inferable.

use vstd::prelude::*;
use crate::token::{clone_tokens, append_tokens, group, ident, punct, toks, Delimiter, Tok, Token};

verus! {

/// The shape of a type, as far as the rewrite has to look into it. Whatever it
/// does not look into is kept as tokens.
#[derive(Debug, PartialEq, Eq)]
pub enum TypeShape {
    /// `impl Bounds`: an opaque type, known only by what it implements. The
    /// tokens are those of the whole type.
    ImplTrait(Vec<Token>),
    /// `_`: a type left to inference.
    Infer,
    /// `[elem; len]`, with the tokens of the length.
    Array(Box<TypeShape>, Vec<Token>),
    /// A type inside a group without visible delimiters.
    Group(Box<TypeShape>),
    /// `(elem)`
    Paren(Box<TypeShape>),
    /// A path, as its pieces in order. Each generic argument that is a type is
    /// a piece of its own; the tokens between two of them are one `Verbatim`
    /// piece.
    Path(Vec<TypeShape>),
    /// `*const elem` or `*mut elem`, with the tokens in front of the element.
    Ptr(Vec<Token>, Box<TypeShape>),
    /// `&elem` with an optional lifetime and `mut`, given as the tokens in
    /// front of the element.
    Reference(Vec<Token>, Box<TypeShape>),
    /// `[elem]`
    Slice(Box<TypeShape>),
    /// `dyn Bounds`, as its pieces in order. The path of each trait bound is a
    /// `Path` piece; all other tokens are `Verbatim` pieces.
    TraitObject(Vec<TypeShape>),
    /// `(a, b, ..)`, as the pieces between the parentheses in order. Each
    /// element is a piece of its own; the commas are `Verbatim` pieces.
    Tuple(Vec<TypeShape>),
    /// A function pointer type, as tokens.
    BareFn(Vec<Token>),
    /// A macro in type position, as tokens.
    Macro(Vec<Token>),
    /// `!`
    Never,
    /// Any other type, as tokens.
    Verbatim(Vec<Token>),
}

/// The mathematical value of a [`TypeShape`].
pub enum TypeView {
    ImplTrait(Seq<Tok>),
    Infer,
    Array(Box<TypeView>, Seq<Tok>),
    Group(Box<TypeView>),
    Paren(Box<TypeView>),
    Path(Seq<TypeView>),
    Ptr(Seq<Tok>, Box<TypeView>),
    Reference(Seq<Tok>, Box<TypeView>),
    Slice(Box<TypeView>),
    TraitObject(Seq<TypeView>),
    Tuple(Seq<TypeView>),
    BareFn(Seq<Tok>),
    Macro(Seq<Tok>),
    Never,
    Verbatim(Seq<Tok>),
}

/// The value of one type shape.
pub open spec fn type_of(t: TypeShape) -> TypeView
    decreases t, 0nat,
{
    match t {
        TypeShape::ImplTrait(ts) => TypeView::ImplTrait(toks(ts@)),
        TypeShape::Infer => TypeView::Infer,
        TypeShape::Array(elem, len) => TypeView::Array(Box::new(type_of(*elem)), toks(len@)),
        TypeShape::Group(elem) => TypeView::Group(Box::new(type_of(*elem))),
        TypeShape::Paren(elem) => TypeView::Paren(Box::new(type_of(*elem))),
        TypeShape::Path(pieces) => TypeView::Path(types_of(pieces@)),
        TypeShape::Ptr(front, elem) => TypeView::Ptr(toks(front@), Box::new(type_of(*elem))),
        TypeShape::Reference(front, elem) => TypeView::Reference(
            toks(front@),
            Box::new(type_of(*elem)),
        ),
        TypeShape::Slice(elem) => TypeView::Slice(Box::new(type_of(*elem))),
        TypeShape::TraitObject(pieces) => TypeView::TraitObject(types_of(pieces@)),
        TypeShape::Tuple(elems) => TypeView::Tuple(types_of(elems@)),
        TypeShape::BareFn(ts) => TypeView::BareFn(toks(ts@)),
        TypeShape::Macro(ts) => TypeView::Macro(toks(ts@)),
        TypeShape::Never => TypeView::Never,
        TypeShape::Verbatim(ts) => TypeView::Verbatim(toks(ts@)),
    }
}

/// The values of a sequence of type shapes, in order.
pub open spec fn types_of(ts: Seq<TypeShape>) -> Seq<TypeView>
    decreases ts, 1nat,
{
    Seq::new(
        ts.len(),
        |i: int|
            if 0 <= i < ts.len() {
                type_of(ts[i])
            } else {
                TypeView::Infer
            },
    )
}

impl View for TypeShape {
    type V = TypeView;

    open spec fn view(&self) -> TypeView {
        type_of(*self)
    }
}

/// The type with every opaque type that the rewrite reaches replaced by `_`.
///
/// The rewrite goes through arrays, groups, parentheses, pointers, references,
/// slices and tuples, through the generic type arguments of a path, and
/// through the paths of the trait bounds of a trait object. It leaves every
/// other type as it is.
pub open spec fn wild(t: TypeView) -> TypeView
    decreases t, 0nat,
{
    match t {
        TypeView::ImplTrait(_) => TypeView::Infer,
        TypeView::Array(elem, len) => TypeView::Array(Box::new(wild(*elem)), len),
        TypeView::Group(elem) => TypeView::Group(Box::new(wild(*elem))),
        TypeView::Paren(elem) => TypeView::Paren(Box::new(wild(*elem))),
        TypeView::Path(pieces) => TypeView::Path(wild_in_path(pieces)),
        TypeView::Ptr(front, elem) => TypeView::Ptr(front, Box::new(wild(*elem))),
        TypeView::Reference(front, elem) => TypeView::Reference(front, Box::new(wild(*elem))),
        TypeView::Slice(elem) => TypeView::Slice(Box::new(wild(*elem))),
        TypeView::TraitObject(pieces) => TypeView::TraitObject(wild_in_bounds(pieces)),
        TypeView::Tuple(elems) => TypeView::Tuple(wild_in_path(elems)),
        TypeView::BareFn(_) | TypeView::Infer | TypeView::Macro(_) | TypeView::Never
        | TypeView::Verbatim(_) => t,
    }
}

/// The pieces of a path or of a tuple, each rewritten by [`wild`].
pub open spec fn wild_in_path(pieces: Seq<TypeView>) -> Seq<TypeView>
    decreases pieces, 1nat,
{
    Seq::new(
        pieces.len(),
        |i: int|
            if 0 <= i < pieces.len() {
                wild(pieces[i])
            } else {
                TypeView::Infer
            },
    )
}

/// The pieces of a trait object: the path of each trait bound is rewritten as
/// a path, every other piece is kept.
pub open spec fn wild_in_bounds(pieces: Seq<TypeView>) -> Seq<TypeView>
    decreases pieces, 1nat,
{
    Seq::new(
        pieces.len(),
        |i: int|
            if 0 <= i < pieces.len() {
                match pieces[i] {
                    TypeView::Path(inner) => TypeView::Path(wild_in_path(inner)),
                    other => other,
                }
            } else {
                TypeView::Infer
            },
    )
}

/// Replaces every opaque type that the rewrite reaches in `ret` by `_`.
pub fn make_impl_trait_wild(ret: &mut TypeShape)
    ensures
        final(ret)@ == wild(old(ret)@),
    decreases *old(ret),
{
    match ret {
        TypeShape::ImplTrait(_) => {
            *ret = TypeShape::Infer;
        },
        TypeShape::Array(elem, _) => make_impl_trait_wild(&mut **elem),
        TypeShape::Group(elem) => make_impl_trait_wild(&mut **elem),
        TypeShape::Paren(elem) => make_impl_trait_wild(&mut **elem),
        TypeShape::Path(pieces) => make_impl_trait_wild_in_path(pieces),
        TypeShape::Ptr(_, elem) => make_impl_trait_wild(&mut **elem),
        TypeShape::Reference(_, elem) => make_impl_trait_wild(&mut **elem),
        TypeShape::Slice(elem) => make_impl_trait_wild(&mut **elem),
        TypeShape::TraitObject(pieces) => {
            let ghost before = *pieces;
            let mut i: usize = 0;
            while i < pieces.len()
                invariant
                    *old(ret) is TraitObject,
                    old(ret)->TraitObject_0 == before,
                    i <= pieces.len(),
                    pieces@.len() == before@.len(),
                    forall|j: int|
                        0 <= j < i ==> pieces@[j]@ == wild_in_bounds(types_of(before@))[j],
                    forall|j: int| i <= j < pieces@.len() ==> pieces@[j] == #[trigger] before@[j],
                decreases pieces.len() - i,
            {
                proof {
                    assert(decreases_to!(*old(ret) => old(ret)->TraitObject_0));
                    assert(decreases_to!(before => before[i as int]));
                }
                match &mut pieces[i] {
                    TypeShape::Path(inner) => {
                        proof {
                            assert(decreases_to!(before[i as int] => before[i as int]->Path_0));
                        }
                        make_impl_trait_wild_in_path(inner)
                    },
                    _ => {},
                }
                i += 1;
            }
            assert(types_of(pieces@) =~= wild_in_bounds(types_of(before@)));
        },
        TypeShape::Tuple(elems) => make_impl_trait_wild_in_path(elems),
        TypeShape::BareFn(_) | TypeShape::Infer | TypeShape::Macro(_) | TypeShape::Never
        | TypeShape::Verbatim(_) => {},
    }
}

/// Rewrites each piece of a path by [`make_impl_trait_wild`].
pub fn make_impl_trait_wild_in_path(path: &mut Vec<TypeShape>)
    ensures
        types_of(final(path)@) == wild_in_path(types_of(old(path)@)),
    decreases *old(path),
{
    let mut i: usize = 0;
    while i < path.len()
        invariant
            i <= path.len(),
            path@.len() == old(path)@.len(),
            forall|j: int| 0 <= j < i ==> (#[trigger] path@[j])@ == wild(old(path)@[j]@),
            forall|j: int| i <= j < path@.len() ==> path@[j] == #[trigger] old(path)@[j],
        decreases path.len() - i,
    {
        proof {
            assert(decreases_to!(*old(path) => old(path)[i as int]));
        }
        make_impl_trait_wild(&mut path[i]);
        i += 1;
    }
    assert(types_of(path@) =~= wild_in_path(types_of(old(path)@)));
}

/// Whether the rewrite finds an opaque type in `t`: at `t` itself, or where
/// [`wild`] goes from there.
pub open spec fn exposes_opaque(t: TypeView) -> bool
    decreases t, 0nat,
{
    match t {
        TypeView::ImplTrait(_) => true,
        TypeView::Array(elem, _) => exposes_opaque(*elem),
        TypeView::Group(elem) => exposes_opaque(*elem),
        TypeView::Paren(elem) => exposes_opaque(*elem),
        TypeView::Path(pieces) => any_exposes_opaque(pieces),
        TypeView::Ptr(_, elem) => exposes_opaque(*elem),
        TypeView::Reference(_, elem) => exposes_opaque(*elem),
        TypeView::Slice(elem) => exposes_opaque(*elem),
        TypeView::TraitObject(pieces) => any_bound_exposes_opaque(pieces),
        TypeView::Tuple(elems) => any_exposes_opaque(elems),
        TypeView::BareFn(_) | TypeView::Infer | TypeView::Macro(_) | TypeView::Never
        | TypeView::Verbatim(_) => false,
    }
}

/// Whether the rewrite finds an opaque type in one of `pieces`.
pub open spec fn any_exposes_opaque(pieces: Seq<TypeView>) -> bool
    decreases pieces, 1nat,
{
    exists|i: int| 0 <= i < pieces.len() && exposes_opaque(#[trigger] pieces[i])
}

/// Whether the rewrite finds an opaque type in the path of one of the trait
/// bounds among `pieces`.
pub open spec fn any_bound_exposes_opaque(pieces: Seq<TypeView>) -> bool
    decreases pieces, 1nat,
{
    exists|i: int|
        0 <= i < pieces.len() && (#[trigger] pieces[i]) is Path && exposes_opaque(pieces[i])
}

/// After the rewrite, no opaque type is left where the rewrite looks.
pub proof fn wild_leaves_no_opaque(t: TypeView)
    ensures
        !exposes_opaque(wild(t)),
    decreases t,
{
    match t {
        TypeView::Array(elem, _) => wild_leaves_no_opaque(*elem),
        TypeView::Group(elem) => wild_leaves_no_opaque(*elem),
        TypeView::Paren(elem) => wild_leaves_no_opaque(*elem),
        TypeView::Ptr(_, elem) => wild_leaves_no_opaque(*elem),
        TypeView::Reference(_, elem) => wild_leaves_no_opaque(*elem),
        TypeView::Slice(elem) => wild_leaves_no_opaque(*elem),
        TypeView::Path(pieces) => {
            assert forall|i: int| 0 <= i < pieces.len() implies !exposes_opaque(
                #[trigger] wild_in_path(pieces)[i],
            ) by {
                wild_leaves_no_opaque(pieces[i]);
            }
            assert(!any_exposes_opaque(wild_in_path(pieces)));
        },
        TypeView::Tuple(elems) => {
            assert forall|i: int| 0 <= i < elems.len() implies !exposes_opaque(
                #[trigger] wild_in_path(elems)[i],
            ) by {
                wild_leaves_no_opaque(elems[i]);
            }
            assert(!any_exposes_opaque(wild_in_path(elems)));
        },
        TypeView::TraitObject(pieces) => {
            assert forall|i: int| 0 <= i < pieces.len() implies !((#[trigger] wild_in_bounds(
                pieces,
            )[i]) is Path && exposes_opaque(wild_in_bounds(pieces)[i])) by {
                if pieces[i] is Path {
                    wild_leaves_no_opaque(pieces[i]);
                }
            }
            assert(!any_bound_exposes_opaque(wild_in_bounds(pieces)));
        },
        _ => {},
    }
}

/// A type in which the rewrite finds no opaque type is left as it is.
pub proof fn wild_keeps_type_without_opaque(t: TypeView)
    requires
        !exposes_opaque(t),
    ensures
        wild(t) == t,
    decreases t,
{
    match t {
        TypeView::Array(elem, _) => wild_keeps_type_without_opaque(*elem),
        TypeView::Group(elem) => wild_keeps_type_without_opaque(*elem),
        TypeView::Paren(elem) => wild_keeps_type_without_opaque(*elem),
        TypeView::Ptr(_, elem) => wild_keeps_type_without_opaque(*elem),
        TypeView::Reference(_, elem) => wild_keeps_type_without_opaque(*elem),
        TypeView::Slice(elem) => wild_keeps_type_without_opaque(*elem),
        TypeView::Path(pieces) => {
            assert(!any_exposes_opaque(pieces));
            assert forall|i: int| 0 <= i < pieces.len() implies wild_in_path(pieces)[i]
                == pieces[i] by {
                wild_keeps_type_without_opaque(pieces[i]);
            }
            assert(wild_in_path(pieces) =~= pieces);
        },
        TypeView::Tuple(elems) => {
            assert(!any_exposes_opaque(elems));
            assert forall|i: int| 0 <= i < elems.len() implies wild_in_path(elems)[i]
                == elems[i] by {
                wild_keeps_type_without_opaque(elems[i]);
            }
            assert(wild_in_path(elems) =~= elems);
        },
        TypeView::TraitObject(pieces) => {
            assert(!any_bound_exposes_opaque(pieces));
            assert forall|i: int| 0 <= i < pieces.len() implies wild_in_bounds(pieces)[i]
                == pieces[i] by {
                if pieces[i] is Path {
                    wild_keeps_type_without_opaque(pieces[i]);
                }
            }
            assert(wild_in_bounds(pieces) =~= pieces);
        },
        _ => {},
    }
}

/// Rewriting twice gives what rewriting once gives.
pub proof fn wild_is_idempotent(t: TypeView)
    ensures
        wild(wild(t)) == wild(t),
{
    wild_leaves_no_opaque(t);
    wild_keeps_type_without_opaque(wild(t));
}

/// The tokens of a type.
pub open spec fn type_toks(t: TypeView) -> Seq<Tok>
    decreases t, 0nat,
{
    match t {
        TypeView::ImplTrait(ts) => ts,
        TypeView::Infer => seq![Tok::Ident("_"@)],
        TypeView::Array(elem, len) => seq![
            Tok::Group(Delimiter::Bracket, type_toks(*elem) + seq![Tok::Punct(';', false)] + len),
        ],
        TypeView::Group(elem) => seq![Tok::Group(Delimiter::Invisible, type_toks(*elem))],
        TypeView::Paren(elem) => seq![Tok::Group(Delimiter::Parenthesis, type_toks(*elem))],
        TypeView::Path(pieces) => pieces_toks(pieces, pieces.len()),
        TypeView::Ptr(front, elem) => front + type_toks(*elem),
        TypeView::Reference(front, elem) => front + type_toks(*elem),
        TypeView::Slice(elem) => seq![Tok::Group(Delimiter::Bracket, type_toks(*elem))],
        TypeView::TraitObject(pieces) => pieces_toks(pieces, pieces.len()),
        TypeView::Tuple(elems) => seq![
            Tok::Group(Delimiter::Parenthesis, pieces_toks(elems, elems.len())),
        ],
        TypeView::BareFn(ts) => ts,
        TypeView::Macro(ts) => ts,
        TypeView::Never => seq![Tok::Punct('!', false)],
        TypeView::Verbatim(ts) => ts,
    }
}

/// The tokens of the first `n` of `pieces`, one piece after the other.
pub open spec fn pieces_toks(pieces: Seq<TypeView>, n: nat) -> Seq<Tok>
    decreases pieces, 1nat, n,
{
    if n == 0 || n > pieces.len() {
        Seq::empty()
    } else {
        pieces_toks(pieces, (n - 1) as nat) + type_toks(pieces[n - 1])
    }
}

impl Clone for TypeShape {
    fn clone(&self) -> (t: TypeShape)
        ensures
            t@ == self@,
        decreases self,
    {
        match self {
            TypeShape::ImplTrait(ts) => TypeShape::ImplTrait(clone_tokens(ts)),
            TypeShape::Infer => TypeShape::Infer,
            TypeShape::Array(elem, len) => TypeShape::Array(
                Box::new((**elem).clone()),
                clone_tokens(len),
            ),
            TypeShape::Group(elem) => TypeShape::Group(Box::new((**elem).clone())),
            TypeShape::Paren(elem) => TypeShape::Paren(Box::new((**elem).clone())),
            TypeShape::Path(pieces) => TypeShape::Path(clone_types(pieces)),
            TypeShape::Ptr(front, elem) => TypeShape::Ptr(
                clone_tokens(front),
                Box::new((**elem).clone()),
            ),
            TypeShape::Reference(front, elem) => TypeShape::Reference(
                clone_tokens(front),
                Box::new((**elem).clone()),
            ),
            TypeShape::Slice(elem) => TypeShape::Slice(Box::new((**elem).clone())),
            TypeShape::TraitObject(pieces) => TypeShape::TraitObject(clone_types(pieces)),
            TypeShape::Tuple(elems) => TypeShape::Tuple(clone_types(elems)),
            TypeShape::BareFn(ts) => TypeShape::BareFn(clone_tokens(ts)),
            TypeShape::Macro(ts) => TypeShape::Macro(clone_tokens(ts)),
            TypeShape::Never => TypeShape::Never,
            TypeShape::Verbatim(ts) => TypeShape::Verbatim(clone_tokens(ts)),
        }
    }
}

/// A copy of a sequence of type shapes.
pub fn clone_types(ts: &Vec<TypeShape>) -> (copy: Vec<TypeShape>)
    ensures
        types_of(copy@) == types_of(ts@),
    decreases ts,
{
    let mut copy: Vec<TypeShape> = Vec::new();
    let mut i: usize = 0;
    while i < ts.len()
        invariant
            i <= ts.len(),
            copy@.len() == i,
            forall|j: int| 0 <= j < i ==> (#[trigger] copy@[j])@ == ts@[j]@,
        decreases ts.len() - i,
    {
        proof {
            assert(decreases_to!(*ts => ts[i as int]));
        }
        copy.push(ts[i].clone());
        i += 1;
    }
    assert(types_of(copy@) =~= types_of(ts@));
    copy
}

/// The tokens of the type `t`.
pub fn type_tokens(t: &TypeShape) -> (out: Vec<Token>)
    ensures
        toks(out@) == type_toks(t@),
    decreases t,
{
    broadcast use crate::token::group_toks;

    match t {
        TypeShape::ImplTrait(ts) => clone_tokens(ts),
        TypeShape::Infer => {
            let mut out: Vec<Token> = Vec::new();
            out.push(ident("_"));
            assert(toks(out@) =~= type_toks(t@));
            out
        },
        TypeShape::Array(elem, len) => {
            let mut inner = type_tokens(elem);
            inner.push(punct(';'));
            append_tokens(&mut inner, clone_tokens(len));
            assert(toks(inner@) =~= type_toks(elem@) + seq![Tok::Punct(';', false)] + toks(len@));
            let mut out: Vec<Token> = Vec::new();
            out.push(group(Delimiter::Bracket, inner));
            assert(toks(out@) =~= type_toks(t@));
            out
        },
        TypeShape::Group(elem) => {
            let inner = type_tokens(elem);
            let mut out: Vec<Token> = Vec::new();
            out.push(group(Delimiter::Invisible, inner));
            assert(toks(out@) =~= type_toks(t@));
            out
        },
        TypeShape::Paren(elem) => {
            let inner = type_tokens(elem);
            let mut out: Vec<Token> = Vec::new();
            out.push(group(Delimiter::Parenthesis, inner));
            assert(toks(out@) =~= type_toks(t@));
            out
        },
        TypeShape::Path(pieces) => pieces_tokens(pieces),
        TypeShape::Ptr(front, elem) => {
            let mut out = clone_tokens(front);
            append_tokens(&mut out, type_tokens(elem));
            out
        },
        TypeShape::Reference(front, elem) => {
            let mut out = clone_tokens(front);
            append_tokens(&mut out, type_tokens(elem));
            out
        },
        TypeShape::Slice(elem) => {
            let inner = type_tokens(elem);
            let mut out: Vec<Token> = Vec::new();
            out.push(group(Delimiter::Bracket, inner));
            assert(toks(out@) =~= type_toks(t@));
            out
        },
        TypeShape::TraitObject(pieces) => pieces_tokens(pieces),
        TypeShape::Tuple(elems) => {
            let inner = pieces_tokens(elems);
            let mut out: Vec<Token> = Vec::new();
            out.push(group(Delimiter::Parenthesis, inner));
            assert(toks(out@) =~= type_toks(t@));
            out
        },
        TypeShape::BareFn(ts) => clone_tokens(ts),
        TypeShape::Macro(ts) => clone_tokens(ts),
        TypeShape::Never => {
            let mut out: Vec<Token> = Vec::new();
            out.push(punct('!'));
            assert(toks(out@) =~= type_toks(t@));
            out
        },
        TypeShape::Verbatim(ts) => clone_tokens(ts),
    }
}

/// The tokens of the pieces of a path, of a tuple or of a trait object, one
/// piece after the other.
pub fn pieces_tokens(pieces: &Vec<TypeShape>) -> (out: Vec<Token>)
    ensures
        toks(out@) == pieces_toks(types_of(pieces@), pieces@.len()),
    decreases pieces,
{
    let mut out: Vec<Token> = Vec::new();
    let mut i: usize = 0;
    assert(toks(out@) =~= Seq::<Tok>::empty());
    while i < pieces.len()
        invariant
            i <= pieces.len(),
            toks(out@) == pieces_toks(types_of(pieces@), i as nat),
        decreases pieces.len() - i,
    {
        proof {
            assert(decreases_to!(*pieces => pieces[i as int]));
        }
        append_tokens(&mut out, type_tokens(&pieces[i]));
        i += 1;
    }
    out
}

} // verus!
