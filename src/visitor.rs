//! Depth-first traversal of a widget tree with early exit.
use crate::geometry::{Position, Rect};
use crate::widget::{Node, TreeView, WidgetId};
use vstd::prelude::*;

verus! {

broadcast use {vstd::std_specs::vec::axiom_vec_index_decreases, vstd::seq::axiom_seq_index_decreases};

/// An operation run over a widget tree.
///
/// The spec functions describe each step as a function of the visitor's
/// state; the executable methods are tied to them.
pub trait Visitor<W>: Sized {
    /// Data threaded top-down from a node to its children.
    type Context;

    /// The visitor wants no more nodes.
    spec fn done(&self) -> bool;

    /// Context of a node from its id, bounds, viewport origin and its
    /// parent's context; `None` prunes the node and its whole subtree.
    spec fn context_for(&self, id: WidgetId, bounds: Rect, origin: Position, parent: Self::Context) -> Option<
        Self::Context,
    >;

    /// Step run on a node before its children.
    spec fn enter(self, id: WidgetId, bounds: Rect, widget: W, ctx: Self::Context) -> (Self, W);

    /// Step run on a node after its children.
    spec fn leave(self, id: WidgetId, bounds: Rect, widget: W, ctx: Self::Context) -> (Self, W);

    fn finished(&self) -> (r: bool)
        ensures
            r == self.done(),
    ;

    fn new_context(&self, id: WidgetId, bounds: Rect, origin: Position, parent: &Self::Context) -> (r: Option<
        Self::Context,
    >)
        ensures
            r == self.context_for(id, bounds, origin, *parent),
    ;

    fn visit_before(&mut self, id: WidgetId, bounds: Rect, widget: &mut W, ctx: &Self::Context)
        ensures
            (*final(self), *final(widget)) == old(self).enter(id, bounds, *old(widget), *ctx),
    ;

    fn visit_after(&mut self, id: WidgetId, bounds: Rect, widget: &mut W, ctx: &Self::Context)
        ensures
            (*final(self), *final(widget)) == old(self).leave(id, bounds, *old(widget), *ctx),
    ;
}

/// Visitor state and tree after walking `t`, whose parent has context
/// `parent`.
pub open spec fn walk<W, V: Visitor<W>>(v: V, t: TreeView<W>, parent: V::Context) -> (V, TreeView<W>)
    decreases t, 1nat,
{
    if v.done() {
        (v, t)
    } else {
        match v.context_for(t.id, t.bounds, t.origin, parent) {
            None => (v, t),
            Some(c) => {
                let (v1, w1) = v.enter(t.id, t.bounds, t.widget, c);
                let (v2, kids) = walk_from(v1, t, 0, c);
                let (v3, w3) = v2.leave(t.id, t.bounds, w1, c);
                (v3, TreeView { id: t.id, bounds: t.bounds, origin: t.origin, widget: w3, children: kids })
            },
        }
    }
}

/// Visitor state and the children of `t` from index `i` on, after walking
/// them in order, stopping as soon as the visitor is done.
pub open spec fn walk_from<W, V: Visitor<W>>(v: V, t: TreeView<W>, i: int, c: V::Context) -> (V, Seq<
    TreeView<W>,
>)
    decreases t, 0nat, t.children.len() - i,
{
    if 0 <= i < t.children.len() {
        let (v1, k) = walk(v, t.children[i], c);
        if v1.done() {
            (v1, seq![k] + t.children.subrange(i + 1, t.children.len() as int))
        } else {
            let (v2, rest) = walk_from(v1, t, i + 1, c);
            (v2, seq![k] + rest)
        }
    } else {
        (v, seq![])
    }
}

/// Walks `node` and its descendants depth-first, children in order.
///
/// A finished visitor returns at once; a node whose context is `None` is
/// skipped with its subtree; after each child the visitor is asked whether
/// it is finished, and if so the remaining siblings are skipped.
pub fn accept<W, V: Visitor<W>>(node: &mut Node<W>, visitor: &mut V, parent: &V::Context)
    ensures
        (*final(visitor), final(node).view()) == walk(*old(visitor), old(node).view(), *parent),
    decreases *old(node),
{
    let ghost t0 = node.view();
    proof {
        crate::widget::lemma_views_from(node.children, 0);
    }
    if visitor.finished() {
        return ;
    }
    let ctx = match visitor.new_context(node.id, node.bounds, node.origin, parent) {
        None => {
            return ;
        },
        Some(c) => c,
    };
    visitor.visit_before(node.id, node.bounds, &mut node.widget, &ctx);
    let ghost v1 = *visitor;
    let ghost w1 = node.widget;
    let n = node.children.len();
    let mut i: usize = 0;
    proof {
        crate::widget::lemma_views_from(node.children, 0);
        assert(Node::<W>::views_from(node.children, 0).subrange(0, 0) =~= Seq::<TreeView<W>>::empty());
    }
    while i < n
        invariant_except_break
            0 <= i <= n,
            forall|j: int| i <= j < n ==> #[trigger] node.children@[j] == old(node).children@[j],
            walk_from(v1, t0, 0, ctx) == (walk_from(*visitor, t0, i as int, ctx).0, Node::<
                W,
            >::views_from(node.children, 0).subrange(0, i as int) + walk_from(
                *visitor,
                t0,
                i as int,
                ctx,
            ).1),
        invariant
            n == node.children@.len(),
            n == old(node).children@.len(),
            Node::<W>::views_from(node.children, 0).len() == n,
            n == t0.children.len(),
            node.id == t0.id,
            node.bounds == t0.bounds,
            node.origin == t0.origin,
            node.widget == w1,
            forall|j: int| 0 <= j < n ==> #[trigger] t0.children[j] == old(node).children@[j].view(),
        ensures
            walk_from(v1, t0, 0, ctx) == (*visitor, Node::<W>::views_from(node.children, 0)),
            n == node.children@.len(),
            node.id == t0.id,
            node.bounds == t0.bounds,
            node.origin == t0.origin,
            node.widget == w1,
        decreases n - i,
    {
        let ghost vb = *visitor;
        let ghost before = *node;
        proof {
            crate::widget::lemma_views_from(before.children, 0);
            assert(old(node).children@[i as int] == before.children@[i as int]);
            assert(decreases_to!(old(node).children => old(node).children@[i as int]));
            assert(decreases_to!(*old(node) => old(node).children@[i as int]));
        }
        accept(&mut node.children[i], visitor, &ctx);
        proof {
            crate::widget::lemma_views_from(node.children, 0);
            let cur = Node::<W>::views_from(node.children, 0);
            let prev = Node::<W>::views_from(before.children, 0);
            let k = node.children@[i as int].view();
            assert(forall|j: int| 0 <= j < n && j != i ==> #[trigger] node.children@[j] == before.children@[j]);
            assert(cur.subrange(0, i as int + 1) =~= prev.subrange(0, i as int).push(k));
            if visitor.done() {
                assert(cur =~= prev.subrange(0, i as int) + (seq![k] + t0.children.subrange(i as int + 1, n as int)));
            } else {
                assert(prev.subrange(0, i as int) + (seq![k] + walk_from(*visitor, t0, i as int + 1, ctx).1)
                    =~= cur.subrange(0, i as int + 1) + walk_from(*visitor, t0, i as int + 1, ctx).1);
            }
        }
        if visitor.finished() {
            break ;
        }
        i = i + 1;
    }
    proof {
        if i == n {
            assert(Node::<W>::views_from(node.children, 0).subrange(0, n as int) =~= Node::<W>::views_from(node.children, 0));
        }
    }
    visitor.visit_after(node.id, node.bounds, &mut node.widget, &ctx);
}

/// Once a visitor is finished, walking a tree changes neither the visitor
/// nor any node of the tree.
pub proof fn lemma_finished_visits_nothing<W, V: Visitor<W>>(v: V, t: TreeView<W>, parent: V::Context)
    requires
        v.done(),
    ensures
        walk(v, t, parent) == (v, t),
{
}

/// When the walk of one child finishes the visitor, every later sibling is
/// left as it was and the visitor comes out of that child's walk unchanged.
pub proof fn lemma_finished_skips_siblings<W, V: Visitor<W>>(v: V, t: TreeView<W>, i: int, c: V::Context)
    requires
        0 <= i < t.children.len(),
        walk(v, t.children[i], c).0.done(),
    ensures
        walk_from(v, t, i, c).0 == walk(v, t.children[i], c).0,
        walk_from(v, t, i, c).1.subrange(1, t.children.len() - i) =~= t.children.subrange(
            i + 1,
            t.children.len() as int,
        ),
{
}

} // verus!
