//! The body of a function as a tree, and the pass that renames the receiver
//! in it.
//!
//! Inside the instrumented function the body runs in a closure, where `self`
//! cannot be named. The pass therefore renames every use of the receiver to
//! `__self`: every path expression that is the identifier `self` and nothing
//! else, outside the items that the body defines. It is a heuristic where
//! macros are concerned: the arguments of a
//! macro are tokens without a meaning of their own, so the pass cannot know
//! whether a `self` in them is the receiver. It renames in the arguments of a
//! macro unless they hold the keyword `fn` somewhere, in which case a `self`
//! in them more likely belongs to a function defined there. A macro can defeat
//! this in both directions.

use vstd::prelude::*;
use crate::token::{
    append_tokens, clone_tokens, group, ident, is_ident, toks, Delimiter, Tok, Token,
};

verus! {

/// One node of a function body.
#[derive(Debug, PartialEq, Eq)]
pub enum Syntax {
    /// A token that is none of the following.
    Token(Token),
    /// A path that stands as an expression and has no qualified self type, as
    /// its tokens.
    Path(Vec<Token>),
    /// A delimited sequence of nodes.
    Group(Delimiter, Vec<Syntax>),
    /// An item defined inside the body, as its nodes.
    Item(Vec<Syntax>),
    /// The delimited arguments of a macro invocation.
    Macro(Delimiter, Vec<Token>),
}

/// The mathematical value of a [`Syntax`].
pub enum SyntaxView {
    Token(Tok),
    Path(Seq<Tok>),
    Group(Delimiter, Seq<SyntaxView>),
    Item(Seq<SyntaxView>),
    Macro(Delimiter, Seq<Tok>),
}

/// The value of one node.
pub open spec fn syntax_of(node: Syntax) -> SyntaxView
    decreases node, 0nat,
{
    match node {
        Syntax::Token(t) => SyntaxView::Token(t@),
        Syntax::Path(path) => SyntaxView::Path(toks(path@)),
        Syntax::Group(d, inner) => SyntaxView::Group(d, syntaxes_of(inner@)),
        Syntax::Item(inner) => SyntaxView::Item(syntaxes_of(inner@)),
        Syntax::Macro(d, args) => SyntaxView::Macro(d, toks(args@)),
    }
}

/// The values of a sequence of nodes, in order.
pub open spec fn syntaxes_of(nodes: Seq<Syntax>) -> Seq<SyntaxView>
    decreases nodes, 1nat,
{
    Seq::new(
        nodes.len(),
        |i: int|
            if 0 <= i < nodes.len() {
                syntax_of(nodes[i])
            } else {
                SyntaxView::Path(Seq::empty())
            },
    )
}

impl View for Syntax {
    type V = SyntaxView;

    open spec fn view(&self) -> SyntaxView {
        syntax_of(*self)
    }
}

impl Clone for Syntax {
    fn clone(&self) -> (node: Syntax)
        ensures
            node@ == self@,
        decreases self,
    {
        match self {
            Syntax::Token(t) => Syntax::Token(t.clone()),
            Syntax::Path(path) => Syntax::Path(clone_tokens(path)),
            Syntax::Group(d, inner) => Syntax::Group(*d, clone_nodes(inner)),
            Syntax::Item(inner) => Syntax::Item(clone_nodes(inner)),
            Syntax::Macro(d, args) => Syntax::Macro(*d, clone_tokens(args)),
        }
    }
}

/// A copy of a sequence of nodes.
pub fn clone_nodes(nodes: &Vec<Syntax>) -> (copy: Vec<Syntax>)
    ensures
        syntaxes_of(copy@) == syntaxes_of(nodes@),
    decreases nodes,
{
    let mut copy: Vec<Syntax> = Vec::new();
    let mut i: usize = 0;
    while i < nodes.len()
        invariant
            i <= nodes.len(),
            copy@.len() == i,
            forall|j: int| 0 <= j < i ==> (#[trigger] copy@[j])@ == nodes@[j]@,
        decreases nodes.len() - i,
    {
        proof {
            assert(decreases_to!(*nodes => nodes[i as int]));
        }
        copy.push(nodes[i].clone());
        i += 1;
    }
    assert(syntaxes_of(copy@) =~= syntaxes_of(nodes@));
    copy
}

/// Whether the identifier `name` occurs in `t`, at any depth.
pub open spec fn tok_mentions(t: Tok, name: Seq<char>) -> bool
    decreases t, 0nat,
{
    match t {
        Tok::Ident(s) => s == name,
        Tok::Group(_, inner) => mentions(inner, name),
        _ => false,
    }
}

/// Whether the identifier `name` occurs in `ts`, at any depth.
pub open spec fn mentions(ts: Seq<Tok>, name: Seq<char>) -> bool
    decreases ts, 1nat,
{
    exists|i: int| 0 <= i < ts.len() && tok_mentions(#[trigger] ts[i], name)
}

/// The token with every identifier `self` in it, at any depth, replaced by
/// `__self`.
pub open spec fn renamed(t: Tok) -> Tok
    decreases t, 0nat,
{
    match t {
        Tok::Ident(s) => if s == "self"@ {
            Tok::Ident("__self"@)
        } else {
            t
        },
        Tok::Group(d, inner) => Tok::Group(d, renamed_all(inner)),
        _ => t,
    }
}

/// The tokens with every identifier `self` in them, at any depth, replaced by
/// `__self`.
pub open spec fn renamed_all(ts: Seq<Tok>) -> Seq<Tok>
    decreases ts, 1nat,
{
    Seq::new(
        ts.len(),
        |i: int|
            if 0 <= i < ts.len() {
                renamed(ts[i])
            } else {
                Tok::Punct(' ', false)
            },
    )
}

/// The arguments of a macro after the pass: kept where they hold the keyword
/// `fn`, renamed where they do not.
pub open spec fn rebound_arguments(args: Seq<Tok>) -> Seq<Tok> {
    if mentions(args, "fn"@) {
        args
    } else {
        renamed_all(args)
    }
}

/// Whether a path is a use of the receiver: the identifier `self`, alone.
pub open spec fn is_bare_self(path: Seq<Tok>) -> bool {
    path == seq![Tok::Ident("self"@)]
}

/// A path after the pass: `__self` where the receiver is in scope and the
/// path is a use of it, the path as it is everywhere else.
pub open spec fn rebound_path(path: Seq<Tok>, receiver: bool) -> Seq<Tok> {
    if receiver && is_bare_self(path) {
        seq![Tok::Ident("__self"@)]
    } else {
        path
    }
}

/// The tokens of a node after the pass. `receiver` says that the receiver of
/// the function is in scope at the node: that the function has one, and that
/// the node does not lie inside an item.
pub open spec fn rebound(node: SyntaxView, receiver: bool) -> Seq<Tok>
    decreases node, 0nat,
{
    match node {
        SyntaxView::Token(t) => seq![t],
        SyntaxView::Path(path) => rebound_path(path, receiver),
        SyntaxView::Group(d, inner) => seq![Tok::Group(d, rebound_all(inner, inner.len(), receiver))],
        SyntaxView::Item(inner) => rebound_all(inner, inner.len(), false),
        SyntaxView::Macro(d, args) => if receiver {
            seq![Tok::Group(d, rebound_arguments(args))]
        } else {
            seq![Tok::Group(d, args)]
        },
    }
}

/// The tokens of the first `n` of `nodes` after the pass, one node after the
/// other.
pub open spec fn rebound_all(nodes: Seq<SyntaxView>, n: nat, receiver: bool) -> Seq<Tok>
    decreases nodes, 1nat, n,
{
    if n == 0 || n > nodes.len() {
        Seq::empty()
    } else {
        rebound_all(nodes, (n - 1) as nat, receiver) + rebound(nodes[n - 1], receiver)
    }
}

/// Whether the keyword `fn` occurs in `tokens`, at any depth.
pub fn contains_fn(tokens: &Vec<Token>) -> (found: bool)
    ensures
        found == mentions(toks(tokens@), "fn"@),
    decreases tokens,
{
    let mut i: usize = 0;
    while i < tokens.len()
        invariant
            i <= tokens.len(),
            forall|j: int| 0 <= j < i ==> !tok_mentions(#[trigger] toks(tokens@)[j], "fn"@),
        decreases tokens.len() - i,
    {
        let found = match &tokens[i] {
            Token::Ident(s) => {
                let wanted = String::from_str("fn");
                *s == wanted
            },
            Token::Group(_, inner) => {
                proof {
                    assert(decreases_to!(*tokens => tokens[i as int]));
                    assert(decreases_to!(tokens[i as int] => tokens[i as int]->Group_1));
                }
                contains_fn(inner)
            },
            _ => false,
        };
        assert(found == tok_mentions(toks(tokens@)[i as int], "fn"@));
        if found {
            return true;
        }
        i += 1;
    }
    false
}

/// The tokens with every identifier `self` in them, at any depth, replaced by
/// `__self`.
pub fn rename_receiver(tokens: &Vec<Token>) -> (out: Vec<Token>)
    ensures
        toks(out@) == renamed_all(toks(tokens@)),
    decreases tokens,
{
    let mut out: Vec<Token> = Vec::new();
    let mut i: usize = 0;
    while i < tokens.len()
        invariant
            i <= tokens.len(),
            out@.len() == i,
            forall|j: int| 0 <= j < i ==> (#[trigger] out@[j])@ == renamed(tokens@[j]@),
        decreases tokens.len() - i,
    {
        let t = match &tokens[i] {
            Token::Ident(s) => {
                let wanted = String::from_str("self");
                if *s == wanted {
                    ident("__self")
                } else {
                    Token::Ident(s.clone())
                }
            },
            Token::Group(d, inner) => {
                proof {
                    assert(decreases_to!(*tokens => tokens[i as int]));
                    assert(decreases_to!(tokens[i as int] => tokens[i as int]->Group_1));
                }
                group(*d, rename_receiver(inner))
            },
            other => other.clone(),
        };
        out.push(t);
        i += 1;
    }
    assert(toks(out@) =~= renamed_all(toks(tokens@)));
    out
}

/// The arguments of a macro after the pass.
pub fn rebind_arguments(args: &Vec<Token>) -> (out: Vec<Token>)
    ensures
        toks(out@) == rebound_arguments(toks(args@)),
{
    if contains_fn(args) {
        clone_tokens(args)
    } else {
        rename_receiver(args)
    }
}

/// A path after the pass.
pub fn rebind_path(path: &Vec<Token>, receiver: bool) -> (out: Vec<Token>)
    ensures
        toks(out@) == rebound_path(toks(path@), receiver),
{
    broadcast use crate::token::group_toks;

    if receiver && path.len() == 1 && is_ident(&path[0], "self") {
        assert(toks(path@) =~= seq![Tok::Ident("self"@)]);
        let mut out: Vec<Token> = Vec::new();
        out.push(ident("__self"));
        assert(toks(out@) =~= seq![Tok::Ident("__self"@)]);
        out
    } else {
        assert(receiver ==> !is_bare_self(toks(path@))) by {
            if is_bare_self(toks(path@)) {
                assert(toks(path@)[0] == Tok::Ident("self"@));
            }
        }
        clone_tokens(path)
    }
}

/// The tokens of `nodes` after the pass. `receiver` says that the receiver of
/// the function is in scope at these nodes.
pub fn rebind(nodes: &Vec<Syntax>, receiver: bool) -> (out: Vec<Token>)
    ensures
        toks(out@) == rebound_all(syntaxes_of(nodes@), nodes@.len(), receiver),
    decreases nodes,
{
    let mut out: Vec<Token> = Vec::new();
    let mut i: usize = 0;
    assert(toks(out@) =~= Seq::<Tok>::empty());
    while i < nodes.len()
        invariant
            i <= nodes.len(),
            toks(out@) == rebound_all(syntaxes_of(nodes@), i as nat, receiver),
        decreases nodes.len() - i,
    {
        broadcast use crate::token::group_toks;

        proof {
            assert(decreases_to!(*nodes => nodes[i as int]));
        }
        let ghost before = toks(out@);
        match &nodes[i] {
            Syntax::Token(t) => {
                out.push(t.clone());
            },
            Syntax::Path(path) => {
                append_tokens(&mut out, rebind_path(path, receiver));
            },
            Syntax::Group(d, inner) => {
                proof {
                    assert(decreases_to!(nodes[i as int] => nodes[i as int]->Group_1));
                }
                out.push(group(*d, rebind(inner, receiver)));
            },
            Syntax::Item(inner) => {
                proof {
                    assert(decreases_to!(nodes[i as int] => nodes[i as int]->Item_0));
                }
                append_tokens(&mut out, rebind(inner, false));
            },
            Syntax::Macro(d, args) => {
                if receiver {
                    out.push(group(*d, rebind_arguments(args)));
                } else {
                    out.push(group(*d, clone_tokens(args)));
                }
            },
        }
        assert(toks(out@) =~= before + rebound(nodes@[i as int]@, receiver));
        i += 1;
    }
    out
}

/// After the renaming the identifier `self` occurs nowhere in a token.
pub proof fn renamed_mentions_no_self(t: Tok)
    ensures
        !tok_mentions(renamed(t), "self"@),
    decreases t,
{
    reveal_strlit("self");
    reveal_strlit("__self");
    match t {
        Tok::Ident(s) => {
            assert("self"@.len() != "__self"@.len());
        },
        Tok::Group(d, inner) => {
            renamed_all_mentions_no_self(inner);
        },
        _ => {},
    }
}

/// After the renaming the identifier `self` occurs nowhere in the tokens.
pub proof fn renamed_all_mentions_no_self(ts: Seq<Tok>)
    ensures
        !mentions(renamed_all(ts), "self"@),
    decreases ts,
{
    assert forall|i: int| 0 <= i < ts.len() implies !tok_mentions(
        #[trigger] renamed_all(ts)[i],
        "self"@,
    ) by {
        renamed_mentions_no_self(ts[i]);
    }
}

/// The renaming keeps a token in which the identifier `self` does not occur.
pub proof fn renamed_keeps_token_without_self(t: Tok)
    requires
        !tok_mentions(t, "self"@),
    ensures
        renamed(t) == t,
    decreases t,
{
    match t {
        Tok::Group(d, inner) => {
            renamed_all_keeps_tokens_without_self(inner);
        },
        _ => {},
    }
}

/// The renaming keeps tokens in which the identifier `self` does not occur.
pub proof fn renamed_all_keeps_tokens_without_self(ts: Seq<Tok>)
    requires
        !mentions(ts, "self"@),
    ensures
        renamed_all(ts) == ts,
    decreases ts,
{
    assert forall|i: int| 0 <= i < ts.len() implies renamed_all(ts)[i] == ts[i] by {
        assert(!tok_mentions(ts[i], "self"@));
        renamed_keeps_token_without_self(ts[i]);
    }
    assert(renamed_all(ts) =~= ts);
}

/// Where the receiver is in scope and the arguments of a macro do not hold the
/// keyword `fn`, every `self` in them is renamed, at any depth, and none is
/// left.
pub proof fn macro_without_fn_is_renamed(d: Delimiter, args: Seq<Tok>)
    requires
        !mentions(args, "fn"@),
    ensures
        rebound(SyntaxView::Macro(d, args), true) == seq![Tok::Group(d, renamed_all(args))],
        !mentions(renamed_all(args), "self"@),
{
    renamed_all_mentions_no_self(args);
}

/// Where the arguments of a macro hold the keyword `fn`, they are kept as
/// they are, whether the receiver is in scope or not.
pub proof fn macro_with_fn_is_kept(d: Delimiter, args: Seq<Tok>, receiver: bool)
    requires
        mentions(args, "fn"@),
    ensures
        rebound(SyntaxView::Macro(d, args), receiver) == seq![Tok::Group(d, args)],
{
}

/// Where the receiver is in scope, a use of it becomes `__self`. Any other
/// path is kept, and so is every path where no receiver is in scope.
pub proof fn path_is_renamed_where_it_is_the_receiver(path: Seq<Tok>, receiver: bool)
    ensures
        rebound(SyntaxView::Path(seq![Tok::Ident("self"@)]), true) == seq![Tok::Ident("__self"@)],
        path != seq![Tok::Ident("self"@)] ==> rebound(SyntaxView::Path(path), receiver) == path,
        rebound(SyntaxView::Path(path), false) == path,
{
}

/// An item inside the body is kept as it is, whether the receiver is in scope
/// around it or not: inside it, `self` means something else.
pub proof fn item_is_kept(inner: Seq<SyntaxView>, receiver: bool)
    ensures
        rebound(SyntaxView::Item(inner), receiver) == rebound_all(inner, inner.len(), false),
{
}

/// Renaming goes through concatenation.
pub proof fn renamed_all_of_concatenation(a: Seq<Tok>, b: Seq<Tok>)
    ensures
        renamed_all(a + b) == renamed_all(a) + renamed_all(b),
{
    assert(renamed_all(a + b) =~= renamed_all(a) + renamed_all(b));
}

/// Renaming twice gives what renaming once gives.
pub proof fn renamed_all_is_idempotent(ts: Seq<Tok>)
    ensures
        renamed_all(renamed_all(ts)) == renamed_all(ts),
{
    renamed_all_mentions_no_self(ts);
    renamed_all_keeps_tokens_without_self(renamed_all(ts));
}

/// The pass does nothing but rename: a node after the pass and the node as
/// it was are the same tokens once every `self` in both is read as `__self`.
pub proof fn pass_only_renames(node: SyntaxView, receiver: bool)
    ensures
        renamed_all(rebound(node, receiver)) == renamed_all(rebound(node, false)),
    decreases node, 0nat,
{
    reveal_strlit("self");
    reveal_strlit("__self");
    match node {
        SyntaxView::Token(t) => {},
        SyntaxView::Path(path) => {
            if receiver && is_bare_self(path) {
                assert("self"@.len() != "__self"@.len());
                assert(renamed_all(seq![Tok::Ident("__self"@)]) =~= seq![Tok::Ident("__self"@)]);
                assert(renamed_all(seq![Tok::Ident("self"@)]) =~= seq![Tok::Ident("__self"@)]);
            }
        },
        SyntaxView::Group(d, inner) => {
            pass_only_renames_all(inner, inner.len(), receiver);
            let after = seq![Tok::Group(d, rebound_all(inner, inner.len(), receiver))];
            let before = seq![Tok::Group(d, rebound_all(inner, inner.len(), false))];
            assert(renamed_all(after) =~= renamed_all(before));
        },
        SyntaxView::Item(inner) => {},
        SyntaxView::Macro(d, args) => {
            if receiver && !mentions(args, "fn"@) {
                renamed_all_is_idempotent(args);
                assert(renamed_all(seq![Tok::Group(d, renamed_all(args))]) =~= renamed_all(
                    seq![Tok::Group(d, args)],
                ));
            }
        },
    }
}

/// The pass does nothing but rename: the first `n` nodes after the pass and
/// the nodes as they were are the same tokens once every `self` in both is
/// read as `__self`.
pub proof fn pass_only_renames_all(nodes: Seq<SyntaxView>, n: nat, receiver: bool)
    ensures
        renamed_all(rebound_all(nodes, n, receiver)) == renamed_all(rebound_all(nodes, n, false)),
    decreases nodes, 1nat, n,
{
    if n == 0 || n > nodes.len() {
    } else {
        pass_only_renames_all(nodes, (n - 1) as nat, receiver);
        pass_only_renames(nodes[n - 1], receiver);
        renamed_all_of_concatenation(
            rebound_all(nodes, (n - 1) as nat, receiver),
            rebound(nodes[n - 1], receiver),
        );
        renamed_all_of_concatenation(
            rebound_all(nodes, (n - 1) as nat, false),
            rebound(nodes[n - 1], false),
        );
    }
}

} // verus!
