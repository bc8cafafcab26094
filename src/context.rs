//! Drawing context handed to a widget: where it may draw, and how its
//! coordinates map to the window.
use crate::geometry::{Point, Position, Rect};
use crate::image::ImageId;
use crate::queue::{DrawError, DrawQueue, Primitive};
use crate::widget::{Node, TreeView};
use vstd::prelude::*;

verus! {

broadcast use {vstd::std_specs::vec::axiom_vec_index_decreases, vstd::seq::axiom_seq_index_decreases};

/// Drawing area of a widget.
#[derive(Debug, Clone, Copy, PartialEq, Eq, Structural, Hash)]
pub struct DrawContext {
    /// Absolute, clipped area the widget may draw into.
    pub viewport: Rect,
    /// Absolute position of the widget's coordinate origin.
    pub offset: Position,
    /// The widget's own viewport origin (its scroll offset).
    pub vp_orig: Position,
}

/// `v` is a valid `i32`.
pub open spec fn fits_i32(v: int) -> bool {
    i32::MIN <= v <= i32::MAX
}

/// Context of a child of `dc` with the given bounds and viewport origin.
pub open spec fn child_context(dc: DrawContext, bounds: Rect, vp_orig: Position) -> Option<DrawContext> {
    let x = bounds.pos.x + dc.offset.x;
    let y = bounds.pos.y + dc.offset.y;
    if !crate::geometry::rect_wf(dc.viewport) || !fits_i32(x) || !fits_i32(y) || !fits_i32(x - vp_orig.x)
        || !fits_i32(y - vp_orig.y) {
        None
    } else {
        match crate::geometry::clip_at(bounds, dc.offset.x as int, dc.offset.y as int, dc.viewport) {
            None => None,
            Some(vp) => Some(
                DrawContext {
                    viewport: vp,
                    offset: Point { x: (x - vp_orig.x) as i32, y: (y - vp_orig.y) as i32 },
                    vp_orig,
                },
            ),
        }
    }
}

/// Context of a child that is not clipped to its bounds: placed like
/// `child_context`, but keeping this context's viewport.
pub open spec fn unclipped_child_context(dc: DrawContext, bounds: Rect, vp_orig: Position) -> Option<
    DrawContext,
> {
    let x = bounds.pos.x + dc.offset.x;
    let y = bounds.pos.y + dc.offset.y;
    if !crate::geometry::rect_wf(dc.viewport) || !fits_i32(x) || !fits_i32(y) || !fits_i32(x - vp_orig.x)
        || !fits_i32(y - vp_orig.y) {
        None
    } else {
        Some(
            DrawContext {
                viewport: dc.viewport,
                offset: Point { x: (x - vp_orig.x) as i32, y: (y - vp_orig.y) as i32 },
                vp_orig,
            },
        )
    }
}

/// Context of a child, clipped to its bounds or not.
pub open spec fn placed_child(dc: DrawContext, bounds: Rect, vp_orig: Position, clipped: bool) -> Option<
    DrawContext,
> {
    if clipped {
        child_context(dc, bounds, vp_orig)
    } else {
        unclipped_child_context(dc, bounds, vp_orig)
    }
}

/// How a widget draws itself. The spec functions describe the drawing as a
/// function of the widget, its bounds, its context and the queue.
pub trait Paint<V: Copy, C>: Sized {
    /// The queue after the widget drew itself into `dq`.
    spec fn painted(&self, bounds: Rect, dc: DrawContext, dq: DrawQueue<V, C>) -> DrawQueue<V, C>;

    /// The widget's drawing area is clipped to its bounds.
    spec fn clipped(&self) -> bool;

    /// Draws the widget, whose bounds are `bounds`, in the area of `dc`.
    fn draw(&self, bounds: Rect, dc: &DrawContext, dq: &mut DrawQueue<V, C>)
        requires
            old(dq).wf(),
        ensures
            final(dq).wf(),
            *final(dq) == self.painted(bounds, *dc, *old(dq)),
    ;

    /// Whether the widget's drawing area is clipped to its bounds.
    fn is_clipped(&self) -> (r: bool)
        ensures
            r == self.clipped(),
    ;
}

/// Queue after drawing `t` and its descendants, each in its own context;
/// parents before children, children in order, and a child whose context
/// is `None` skipped with its subtree.
pub open spec fn paint_walk<V: Copy, C, W: Paint<V, C>>(t: TreeView<W>, dc: DrawContext, q: DrawQueue<V, C>) -> DrawQueue<
    V,
    C,
>
    decreases t, 1nat, 0int,
{
    paint_from(t, 0, dc, t.widget.painted(t.bounds, dc, q))
}

/// Queue after drawing the children of `t` from index `i` on.
pub open spec fn paint_from<V: Copy, C, W: Paint<V, C>>(t: TreeView<W>, i: int, dc: DrawContext, q: DrawQueue<V, C>) -> DrawQueue<
    V,
    C,
>
    decreases t, 0nat, t.children.len() - i,
{
    if 0 <= i < t.children.len() {
        let k = t.children[i];
        let q2 = match placed_child(dc, k.bounds, k.origin, k.widget.clipped()) {
            Some(kc) => paint_walk(k, kc, q),
            None => q,
        };
        paint_from(t, i + 1, dc, q2)
    } else {
        q
    }
}

/// Draws `node` and its descendants into `dq`: each node in its own
/// context, parents before children, children in order.
pub fn draw_tree<V: Copy, C, W: Paint<V, C>>(node: &Node<W>, dc: &DrawContext, dq: &mut DrawQueue<V, C>)
    requires
        old(dq).wf(),
    ensures
        final(dq).wf(),
        *final(dq) == paint_walk(node.view(), *dc, *old(dq)),
    decreases *node,
{
    let ghost t = node.view();
    proof {
        crate::widget::lemma_views_from(node.children, 0);
    }
    node.widget.draw(node.bounds, dc, dq);
    let n = node.children.len();
    let mut i: usize = 0;
    while i < n
        invariant
            0 <= i <= n,
            n == node.children@.len(),
            t == node.view(),
            t.children.len() == n,
            forall|j: int| 0 <= j < n ==> #[trigger] t.children[j] == node.children@[j].view(),
            dq.wf(),
            paint_walk(t, *dc, *old(dq)) == paint_from(t, i as int, *dc, *dq),
        decreases n - i,
    {
        let child = &node.children[i];
        proof {
            assert(decreases_to!(node.children => node.children@[i as int]));
            assert(decreases_to!(*node => node.children@[i as int]));
        }
        let clipped = child.widget.is_clipped();
        let placed = if clipped {
            dc.draw_child(child.bounds, child.origin)
        } else {
            dc.place_child(child.bounds, child.origin)
        };
        match placed {
            Some(cdc) => draw_tree(child, &cdc, dq),
            None => {},
        }
        i = i + 1;
    }
}

impl DrawContext {
    /// Context for a top-level area: coordinates start at its corner.
    pub fn new(viewport: Rect) -> (r: Self)
        ensures
            r.viewport == viewport,
            r.offset == viewport.pos,
            r.vp_orig == (Point { x: 0i32, y: 0i32 }),
    {
        DrawContext { viewport, offset: viewport.pos, vp_orig: Point { x: 0, y: 0 } }
    }

    /// Returns the viewport origin (coordinates of the top-left corner).
    pub fn origin(&self) -> (r: Position)
        ensures
            r == self.vp_orig,
    {
        self.vp_orig
    }

    /// Context of a child with the given bounds and viewport origin, or
    /// `None` when the child lies outside this context's viewport or its
    /// coordinates do not fit in `i32`.
    ///
    /// The child's viewport is its bounds, placed at this context's offset
    /// and clipped to this viewport; its offset is its placed position
    /// minus its viewport origin.
    pub fn draw_child(&self, bounds: Rect, vp_orig: Position) -> (r: Option<DrawContext>)
        ensures
            r == child_context(*self, bounds, vp_orig),
            r matches Some(c) ==> crate::geometry::rect_wf(c.viewport) && crate::geometry::rect_within(
                c.viewport,
                self.viewport,
            ),
    {
        let x = bounds.pos.x as i64 + self.offset.x as i64;
        let y = bounds.pos.y as i64 + self.offset.y as i64;
        let ox = x - vp_orig.x as i64;
        let oy = y - vp_orig.y as i64;
        let lo = i32::MIN as i64;
        let hi = i32::MAX as i64;
        if self.viewport.end_x() > hi || self.viewport.end_y() > hi {
            return None;
        }
        if x < lo || x > hi || y < lo || y > hi || ox < lo || ox > hi || oy < lo || oy > hi {
            return None;
        }
        match bounds.clip_offset_inside(self.offset, self.viewport) {
            None => None,
            Some(viewport) => Some(
                DrawContext { viewport, offset: Point { x: ox as i32, y: oy as i32 }, vp_orig },
            ),
        }
    }

    /// Context of a child that is not clipped to its bounds: placed like
    /// `draw_child`, but keeping this viewport. `None` when the child's
    /// coordinates do not fit in `i32` or this viewport's edges do not.
    pub fn place_child(&self, bounds: Rect, vp_orig: Position) -> (r: Option<DrawContext>)
        ensures
            r == unclipped_child_context(*self, bounds, vp_orig),
    {
        let x = bounds.pos.x as i64 + self.offset.x as i64;
        let y = bounds.pos.y as i64 + self.offset.y as i64;
        let ox = x - vp_orig.x as i64;
        let oy = y - vp_orig.y as i64;
        let lo = i32::MIN as i64;
        let hi = i32::MAX as i64;
        if self.viewport.end_x() > hi || self.viewport.end_y() > hi {
            return None;
        }
        if x < lo || x > hi || y < lo || y > hi || ox < lo || ox > hi || oy < lo || oy > hi {
            return None;
        }
        Some(DrawContext { viewport: self.viewport, offset: Point { x: ox as i32, y: oy as i32 }, vp_orig })
    }

    /// Draws triangles into `dq`, with vertex positions relative to this
    /// context's origin: `translate` moves each vertex by `offset`.
    pub fn draw_triangles<V: Copy, C, F>(
        &self,
        dq: &mut DrawQueue<V, C>,
        vertices: &[V],
        indices: &[u32],
        texture: Option<ImageId>,
        translate: F,
    ) -> (r: Result<(), DrawError>)
        where
            F: Fn(V, Position) -> V,
        requires
            old(dq).wf(),
            vertices@.len() > 0 && !crate::queue::has_bad_index(indices@, vertices@.len()) ==> old(
                dq,
            ).vertices@.len() + vertices@.len() <= u32::MAX,
            forall|v: V| #[trigger] translate.requires((v, self.offset)),
        ensures
            final(dq).wf(),
            r is Err <==> vertices@.len() > 0 && crate::queue::has_bad_index(indices@, vertices@.len()),
            r is Err || vertices@.len() == 0 ==> *final(dq) == *old(dq),
            r is Ok && vertices@.len() > 0 ==> {
                &&& final(dq).vertices@.len() == old(dq).vertices@.len() + vertices@.len()
                &&& final(dq).vertices@.subrange(0, old(dq).vertices@.len() as int) == old(dq).vertices@
                &&& forall|i: int|
                    0 <= i < vertices@.len() ==> translate.ensures(
                        (vertices@[i], self.offset),
                        #[trigger] final(dq).vertices@[old(dq).vertices@.len() + i],
                    )
                &&& final(dq).indices@ == old(dq).indices@ + indices@.map_values(
                    |k: u32| (k + old(dq).vertices@.len()) as u32,
                )
                &&& final(dq).commands@ == crate::queue::pushed_commands(
                    old(dq).commands@,
                    Primitive::Triangles,
                    texture,
                    self.viewport,
                    old(dq).indices@.len(),
                    indices@.len(),
                )
            },
    {
        dq.push_prim_at(Primitive::Triangles, vertices, indices, texture, self.offset, self.viewport, translate)
    }

    /// Draws one triangle with the given vertices, relative to this
    /// context's origin.
    pub fn draw_triangle<V: Copy, C, F>(
        &self,
        dq: &mut DrawQueue<V, C>,
        v0: V,
        v1: V,
        v2: V,
        texture: Option<ImageId>,
        translate: F,
    )
        where
            F: Fn(V, Position) -> V,
        requires
            old(dq).wf(),
            old(dq).vertices@.len() + 3 <= u32::MAX,
            forall|v: V| #[trigger] translate.requires((v, self.offset)),
        ensures
            final(dq).wf(),
            final(dq).vertices@.len() == old(dq).vertices@.len() + 3,
            final(dq).vertices@.subrange(0, old(dq).vertices@.len() as int) == old(dq).vertices@,
            translate.ensures((v0, self.offset), final(dq).vertices@[old(dq).vertices@.len() as int]),
            translate.ensures((v1, self.offset), final(dq).vertices@[old(dq).vertices@.len() as int + 1]),
            translate.ensures((v2, self.offset), final(dq).vertices@[old(dq).vertices@.len() as int + 2]),
            final(dq).indices@ == old(dq).indices@ + seq![0u32, 1, 2].map_values(
                |k: u32| (k + old(dq).vertices@.len()) as u32,
            ),
            final(dq).commands@ == crate::queue::pushed_commands(
                old(dq).commands@,
                Primitive::Triangles,
                texture,
                self.viewport,
                old(dq).indices@.len(),
                3,
            ),
    {
        let verts = [v0, v1, v2];
        let indices: [u32; 3] = [0, 1, 2];
        let vs = verts.as_slice();
        let is = indices.as_slice();
        assert(vs@ == seq![v0, v1, v2]);
        assert(is@ == seq![0u32, 1, 2]);
        assert(!crate::queue::has_bad_index(is@, 3));
        let r = dq.push_prim_at(Primitive::Triangles, vs, is, texture, self.offset, self.viewport, translate);
        proof {
            assert(translate.ensures((vs@[0], self.offset), dq.vertices@[old(dq).vertices@.len() as int + 0]));
            assert(translate.ensures((vs@[1], self.offset), dq.vertices@[old(dq).vertices@.len() as int + 1]));
            assert(translate.ensures((vs@[2], self.offset), dq.vertices@[old(dq).vertices@.len() as int + 2]));
        }
    }

    /// Draws `rect` (relative to this context's origin) as two triangles;
    /// `corner` makes the vertex of each corner, in the order top-left,
    /// top-right, bottom-right, bottom-left, and `translate` moves it by
    /// `offset`.
    pub fn draw_rect<V: Copy, C, F, G>(
        &self,
        dq: &mut DrawQueue<V, C>,
        rect: Rect,
        texture: Option<ImageId>,
        corner: G,
        translate: F,
    )
        where
            F: Fn(V, Position) -> V,
            G: Fn(Position) -> V,
        requires
            old(dq).wf(),
            old(dq).vertices@.len() + 4 <= u32::MAX,
            crate::geometry::rect_wf(rect),
            forall|p: Position| #[trigger] corner.requires((p,)),
            forall|v: V| #[trigger] translate.requires((v, self.offset)),
        ensures
            rect_drawn(*old(dq), *final(dq), rect, self.offset, self.viewport, texture, corner, translate),
    {
        self.quad(dq, rect, self.offset, texture, corner, translate)
    }

    /// Fills the whole drawing area; `corner` makes the vertex of each
    /// corner of the viewport (in window coordinates), and `translate` is
    /// applied with a zero offset.
    pub fn fill<V: Copy, C, F, G>(&self, dq: &mut DrawQueue<V, C>, texture: Option<ImageId>, corner: G, translate: F)
        where
            F: Fn(V, Position) -> V,
            G: Fn(Position) -> V,
        requires
            old(dq).wf(),
            old(dq).vertices@.len() + 4 <= u32::MAX,
            crate::geometry::rect_wf(self.viewport),
            forall|p: Position| #[trigger] corner.requires((p,)),
            forall|v: V| #[trigger] translate.requires((v, Point { x: 0i32, y: 0i32 })),
        ensures
            rect_drawn(
                *old(dq),
                *final(dq),
                self.viewport,
                Point { x: 0, y: 0 },
                self.viewport,
                texture,
                corner,
                translate,
            ),
    {
        self.quad(dq, self.viewport, Point { x: 0, y: 0 }, texture, corner, translate)
    }

    fn quad<V: Copy, C, F, G>(
        &self,
        dq: &mut DrawQueue<V, C>,
        rect: Rect,
        offset: Position,
        texture: Option<ImageId>,
        corner: G,
        translate: F,
    )
        where
            F: Fn(V, Position) -> V,
            G: Fn(Position) -> V,
        requires
            old(dq).wf(),
            old(dq).vertices@.len() + 4 <= u32::MAX,
            crate::geometry::rect_wf(rect),
            forall|p: Position| #[trigger] corner.requires((p,)),
            forall|v: V| #[trigger] translate.requires((v, offset)),
        ensures
            rect_drawn(*old(dq), *final(dq), rect, offset, self.viewport, texture, corner, translate),
    {
        let x0 = rect.pos.x;
        let y0 = rect.pos.y;
        let x1 = rect.end_x() as i32;
        let y1 = rect.end_y() as i32;
        let c0 = corner(Point { x: x0, y: y0 });
        let c1 = corner(Point { x: x1, y: y0 });
        let c2 = corner(Point { x: x1, y: y1 });
        let c3 = corner(Point { x: x0, y: y1 });
        let verts = [c0, c1, c2, c3];
        let indices: [u32; 6] = [0, 1, 2, 2, 3, 0];
        let vs = verts.as_slice();
        let is = indices.as_slice();
        assert(vs@ == seq![c0, c1, c2, c3]);
        assert(is@ == seq![0u32, 1, 2, 2, 3, 0]);
        assert(!crate::queue::has_bad_index(is@, 4));
        let r = dq.push_prim_at(Primitive::Triangles, vs, is, texture, offset, self.viewport, translate);
        proof {
            let n = old(dq).vertices@.len() as int;
            assert(translate.ensures((vs@[0], offset), dq.vertices@[n + 0]));
            assert(translate.ensures((vs@[1], offset), dq.vertices@[n + 1]));
            assert(translate.ensures((vs@[2], offset), dq.vertices@[n + 2]));
            assert(translate.ensures((vs@[3], offset), dq.vertices@[n + 3]));
            assert forall|i: int| 0 <= i < 4 implies #[trigger] corner_placed(
                corner,
                translate,
                rect_corner(rect, i),
                offset,
                dq.vertices@[n + i],
            ) by {
                if i == 0 {
                    assert(corner.ensures((rect_corner(rect, 0),), c0));
                } else if i == 1 {
                    assert(corner.ensures((rect_corner(rect, 1),), c1));
                } else if i == 2 {
                    assert(corner.ensures((rect_corner(rect, 2),), c2));
                } else {
                    assert(corner.ensures((rect_corner(rect, 3),), c3));
                }
            }
        }
    }
}

/// Corner `i` of `r`: top-left, top-right, bottom-right, bottom-left.
pub open spec fn rect_corner(r: Rect, i: int) -> Position {
    let x1 = (r.pos.x + r.size.w) as i32;
    let y1 = (r.pos.y + r.size.h) as i32;
    if i == 0 {
        r.pos
    } else if i == 1 {
        Point { x: x1, y: r.pos.y }
    } else if i == 2 {
        Point { x: x1, y: y1 }
    } else {
        Point { x: r.pos.x, y: y1 }
    }
}

/// `v` is a vertex `corner` made at `p`, then moved by `offset`.
pub open spec fn corner_placed<V, F: Fn(V, Position) -> V, G: Fn(Position) -> V>(
    corner: G,
    translate: F,
    p: Position,
    offset: Position,
    v: V,
) -> bool {
    exists|c: V| corner.ensures((p,), c) && translate.ensures((c, offset), v)
}

/// `q1` is `q0` after drawing the rectangle `r` as two triangles with
/// corners made by `corner` and moved by `offset`, clipped to `viewport`.
pub open spec fn rect_drawn<V: Copy, C, F: Fn(V, Position) -> V, G: Fn(Position) -> V>(
    q0: DrawQueue<V, C>,
    q1: DrawQueue<V, C>,
    r: Rect,
    offset: Position,
    viewport: Rect,
    texture: Option<ImageId>,
    corner: G,
    translate: F,
) -> bool {
    &&& q1.wf()
    &&& q1.vertices@.len() == q0.vertices@.len() + 4
    &&& q1.vertices@.subrange(0, q0.vertices@.len() as int) == q0.vertices@
    &&& forall|i: int|
        0 <= i < 4 ==> #[trigger] corner_placed(corner, translate, rect_corner(r, i), offset, q1.vertices@[q0.vertices@.len() as int + i])
    &&& q1.indices@ == q0.indices@ + seq![0u32, 1, 2, 2, 3, 0].map_values(
        |k: u32| (k + q0.vertices@.len()) as u32,
    )
    &&& q1.commands@ == crate::queue::pushed_commands(
        q0.commands@,
        Primitive::Triangles,
        texture,
        viewport,
        q0.indices@.len(),
        6,
    )
}

} // verus!
