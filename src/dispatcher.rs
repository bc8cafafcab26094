//! Routing of input events through a widget tree.
use crate::event::{AxisValue, Event, EventContext, EventResult};
use crate::context::DrawContext;
use crate::geometry::{Point, Position, Rect, Size};
use crate::visitor::{accept, Visitor};
use crate::widget::{Node, TreeView, Widget, WidgetId};
use vstd::prelude::*;

verus! {

/// Visitor that hit-tests and delivers one input event.
///
/// Its context places the node being visited in the window, as a drawing
/// context does: the absolute, clipped viewport the node is hit-tested
/// against, and the absolute position of its coordinate origin (its
/// position inside its parent's origin, less its own viewport origin). Widgets
/// see the event after their children (innermost first); the first one to
/// consume it stops the walk, and every ancestor then gets
/// `event_consumed`.
#[derive(Debug)]
pub struct EventDispatcher {
    /// The event being dispatched.
    pub event: Event,
    /// The state that came with it.
    pub ctx: EventContext,
    /// Widget under the pointer before the last pointer move.
    pub last_inside: Option<WidgetId>,
    /// Innermost widget under the pointer after the last pointer move.
    pub inside: Option<WidgetId>,
    /// Keyboard policy: `None` sends keyboard and character events to every
    /// visited widget, `Some(id)` only to the focused widget `id`.
    pub focus: Option<WidgetId>,
    /// The widget that consumed the event, once one has.
    pub consumer: Option<WidgetId>,
}

/// Keyboard and character input.
pub open spec fn is_key_event(e: Event) -> bool {
    e is Keyboard || e is Character
}

/// Events that carry a pointer position and are hit-tested.
pub open spec fn is_pointer_event(e: Event) -> bool {
    e is MouseMoved || e is MouseButton || e is FileDropped
}

/// A pointer move to a new position.
pub open spec fn is_position_move(e: Event) -> bool {
    e matches Event::MouseMoved(AxisValue::Position(_))
}

/// The dispatcher hands its event to widget `id`, placed by `c`.
pub open spec fn delivers(d: EventDispatcher, id: WidgetId, c: DrawContext) -> bool {
    if is_key_event(d.event) {
        d.focus is None || d.focus == Some(id)
    } else if is_pointer_event(d.event) {
        crate::geometry::point_in_rect(d.ctx.abs_pos, c.viewport)
    } else {
        false
    }
}

/// `v` limited to the range of `i32`.
pub open spec fn clamp_i32(v: int) -> i32 {
    if v < i32::MIN {
        i32::MIN
    } else if v > i32::MAX {
        i32::MAX
    } else {
        v as i32
    }
}

/// The event context as a widget placed by `c` sees it: the pointer
/// position relative to the widget's origin (limited to `i32`), the rest as
/// it came.
pub open spec fn local_context(ctx: EventContext, c: DrawContext) -> EventContext {
    EventContext {
        pointer_pos: Point {
            x: clamp_i32(ctx.abs_pos.x - c.offset.x),
            y: clamp_i32(ctx.abs_pos.y - c.offset.y),
        },
        ..ctx
    }
}

fn clamp_i32_of(v: i64) -> (r: i32)
    ensures
        r == clamp_i32(v as int),
{
    if v < i32::MIN as i64 {
        i32::MIN
    } else if v > i32::MAX as i64 {
        i32::MAX
    } else {
        v as i32
    }
}

fn local_context_of(ctx: &EventContext, c: &DrawContext) -> (r: EventContext)
    ensures
        r == local_context(*ctx, *c),
{
    let x = clamp_i32_of(ctx.abs_pos.x as i64 - c.offset.x as i64);
    let y = clamp_i32_of(ctx.abs_pos.y as i64 - c.offset.y as i64);
    EventContext { pointer_pos: Point { x, y }, ..*ctx }
}

/// Dispatcher and widget after a node's children were walked.
pub open spec fn after_children<W: Widget>(d: EventDispatcher, id: WidgetId, w: W, c: DrawContext) -> (
    EventDispatcher,
    W,
) {
    if d.consumer is Some {
        (d, w.on_consumed(d.event, local_context(d.ctx, c)))
    } else if delivers(d, id, c) {
        let (w2, r) = w.on_event(d.event, local_context(d.ctx, c));
        let inside = if is_position_move(d.event) && d.inside is None {
            Some(id)
        } else {
            d.inside
        };
        let consumer = if r == EventResult::Consumed {
            Some(id)
        } else {
            None
        };
        (
            EventDispatcher {
                event: d.event,
                ctx: d.ctx,
                last_inside: d.last_inside,
                inside,
                focus: d.focus,
                consumer,
            },
            w2,
        )
    } else {
        (d, w)
    }
}

/// Dispatcher as it starts on a new event.
pub open spec fn prepared(d: EventDispatcher, event: Event, ctx: EventContext) -> EventDispatcher {
    EventDispatcher {
        event,
        ctx,
        last_inside: if is_position_move(event) {
            d.inside
        } else {
            d.last_inside
        },
        inside: if is_position_move(event) {
            None
        } else {
            d.inside
        },
        focus: d.focus,
        consumer: None,
    }
}

impl EventDispatcher {
    /// A dispatcher with no event history and the broadcast keyboard policy.
    pub fn new() -> (r: Self)
        ensures
            r.last_inside is None,
            r.inside is None,
            r.focus is None,
            r.consumer is None,
            r.event == Event::Created,
    {
        EventDispatcher {
            event: Event::Created,
            ctx: EventContext {
                timestamp: 0,
                pointer_pos: Point { x: 0, y: 0 },
                abs_pos: Point { x: 0, y: 0 },
                button_state: crate::event::ButtonState(0),
                mod_state: crate::event::ModState { shift: false, ctrl: false, alt: false, meta: false },
            },
            last_inside: None,
            inside: None,
            focus: None,
            consumer: None,
        }
    }

    /// Sets the keyboard policy (see `focus`).
    pub fn set_focus(&mut self, focus: Option<WidgetId>)
        ensures
            *final(self) == (EventDispatcher { focus, ..*old(self) }),
    {
        self.focus = focus;
    }

    fn delivers_to(&self, id: WidgetId, c: &DrawContext) -> (r: bool)
        ensures
            r == delivers(*self, id, *c),
    {
        match &self.event {
            Event::Keyboard { .. } | Event::Character(_) => match self.focus {
                None => true,
                Some(f) => f == id,
            },
            Event::MouseMoved(_) | Event::MouseButton { .. } | Event::FileDropped(_) => c.viewport.contains(
                self.ctx.abs_pos,
            ),
            _ => false,
        }
    }

    /// Sends `event` through the tree rooted at `root`, inside a window of
    /// size `win_size`, and returns the widget that consumed it, if any.
    pub fn dispatch_event<W: Widget>(
        &mut self,
        event: Event,
        ctx: EventContext,
        win_size: Size,
        root: &mut Node<W>,
    ) -> (r: Option<WidgetId>)
        ensures
            (*final(self), final(root).view()) == crate::visitor::walk(
                prepared(*old(self), event, ctx),
                old(root).view(),
                window_context(win_size),
            ),
            r == final(self).consumer,
    {
        if self.position_move_of(&event) {
            self.last_inside = self.inside;
            self.inside = None;
        }
        self.event = event;
        self.ctx = ctx;
        self.consumer = None;
        let area = Rect::for_window(win_size);
        let top = DrawContext::new(area);
        accept(root, self, &top);
        self.consumer
    }

    fn position_move_of(&self, event: &Event) -> (r: bool)
        ensures
            r == is_position_move(*event),
    {
        match event {
            Event::MouseMoved(AxisValue::Position(_)) => true,
            _ => false,
        }
    }
}

/// Context of the window itself: its visible area, origin at its corner.
pub open spec fn window_context(size: Size) -> DrawContext {
    DrawContext {
        viewport: crate::geometry::window_rect(size),
        offset: Point { x: 0, y: 0 },
        vp_orig: Point { x: 0, y: 0 },
    }
}

impl<W: Widget> Visitor<W> for EventDispatcher {
    type Context = DrawContext;

    open spec fn done(&self) -> bool {
        self.consumer is Some
    }

    open spec fn context_for(&self, id: WidgetId, bounds: Rect, origin: Position, parent: DrawContext) -> Option<
        DrawContext,
    > {
        crate::context::child_context(parent, bounds, origin)
    }

    open spec fn enter(self, id: WidgetId, bounds: Rect, widget: W, ctx: DrawContext) -> (Self, W) {
        (self, widget)
    }

    open spec fn leave(self, id: WidgetId, bounds: Rect, widget: W, ctx: DrawContext) -> (Self, W) {
        after_children(self, id, widget, ctx)
    }

    fn finished(&self) -> (r: bool) {
        self.consumer.is_some()
    }

    fn new_context(&self, id: WidgetId, bounds: Rect, origin: Position, parent: &DrawContext) -> (r: Option<
        DrawContext,
    >) {
        parent.draw_child(bounds, origin)
    }

    fn visit_before(&mut self, id: WidgetId, bounds: Rect, widget: &mut W, ctx: &DrawContext) {
    }

    fn visit_after(&mut self, id: WidgetId, bounds: Rect, widget: &mut W, ctx: &DrawContext) {
        let local = local_context_of(&self.ctx, ctx);
        if self.consumer.is_some() {
            widget.event_consumed(&self.event, &local);
            return ;
        }
        if self.delivers_to(id, ctx) {
            let r = widget.handle_event(&self.event, &local);
            if self.position_move_of(&self.event) && self.inside.is_none() {
                self.inside = Some(id);
            }
            if r == EventResult::Consumed {
                self.consumer = Some(id);
            }
        }
    }
}

/// A node's viewport lies inside its parent's viewport, so a pointer outside
/// a widget's viewport is outside the viewport of each of its descendants.
pub proof fn lemma_viewport_nested(bounds: Rect, origin: Position, parent: DrawContext)
    ensures
        crate::context::child_context(parent, bounds, origin) matches Some(c) ==> crate::geometry::rect_within(
            c.viewport,
            parent.viewport,
        ) && crate::geometry::rect_wf(c.viewport),
{
}

/// A pointer event whose position lies outside a widget's viewport never
/// reaches that widget: the dispatcher and the widget come out of the
/// widget's step unchanged.
pub proof fn lemma_outside_not_delivered<W: Widget>(d: EventDispatcher, id: WidgetId, w: W, c: DrawContext)
    requires
        is_pointer_event(d.event),
        !crate::geometry::point_in_rect(d.ctx.abs_pos, c.viewport),
        d.consumer is None,
    ensures
        after_children(d, id, w, c) == (d, w),
{
}

/// A hit recorded by a descendant is kept by its ancestors: the dispatcher
/// reports the innermost widget under the pointer.
pub proof fn lemma_innermost_hit_kept<W: Widget>(d: EventDispatcher, id: WidgetId, w: W, c: DrawContext)
    requires
        d.inside is Some,
    ensures
        after_children(d, id, w, c).0.inside == d.inside,
{
}

/// Until the event is consumed, a pointer move that lands in a widget's
/// viewport reaches it, with the pointer measured from the widget's
/// origin; the first such widget on the walk becomes the hovered one.
pub proof fn lemma_inside_delivered<W: Widget>(d: EventDispatcher, id: WidgetId, w: W, c: DrawContext)
    requires
        is_position_move(d.event),
        crate::geometry::point_in_rect(d.ctx.abs_pos, c.viewport),
        d.consumer is None,
        d.inside is None,
    ensures
        after_children(d, id, w, c).1 == w.on_event(d.event, local_context(d.ctx, c)).0,
        after_children(d, id, w, c).0.inside == Some(id),
{
}

/// Nothing is entered or changed in a subtree whose viewport is clipped
/// away.
pub proof fn lemma_clipped_subtree_untouched<W: Widget>(d: EventDispatcher, t: TreeView<W>, parent: DrawContext)
    requires
        crate::context::child_context(parent, t.bounds, t.origin) is None,
    ensures
        crate::visitor::walk(d, t, parent) == (d, t),
{
}

/// A pointer event whose position lies outside a node's viewport reaches
/// neither that node nor any node below it: walking the subtree leaves the
/// dispatcher and every widget in it unchanged.
pub proof fn lemma_miss_leaves_subtree<W: Widget>(d: EventDispatcher, t: TreeView<W>, parent: DrawContext)
    requires
        is_pointer_event(d.event),
        d.consumer is None,
        crate::context::child_context(parent, t.bounds, t.origin) matches Some(c)
            ==> !crate::geometry::point_in_rect(d.ctx.abs_pos, c.viewport),
    ensures
        crate::visitor::walk(d, t, parent) == (d, t),
    decreases t, 1nat, 0int,
{
    match crate::context::child_context(parent, t.bounds, t.origin) {
        None => {},
        Some(c) => {
            lemma_miss_leaves_children(d, t, 0, c);
            assert(t.children.subrange(0, t.children.len() as int) =~= t.children);
        },
    }
}

proof fn lemma_miss_leaves_children<W: Widget>(d: EventDispatcher, t: TreeView<W>, i: int, c: DrawContext)
    requires
        is_pointer_event(d.event),
        d.consumer is None,
        !crate::geometry::point_in_rect(d.ctx.abs_pos, c.viewport),
        0 <= i <= t.children.len(),
    ensures
        crate::visitor::walk_from(d, t, i, c) == (d, t.children.subrange(i, t.children.len() as int)),
    decreases t, 0nat, t.children.len() - i,
{
    if i < t.children.len() {
        let k = t.children[i];
        assert(decreases_to!(t => t.children[i]));
        lemma_viewport_nested(k.bounds, k.origin, c);
        lemma_miss_leaves_subtree(d, k, c);
        lemma_miss_leaves_children(d, t, i + 1, c);
        assert(seq![k] + t.children.subrange(i + 1, t.children.len() as int) =~= t.children.subrange(
            i,
            t.children.len() as int,
        ));
    } else {
        assert(t.children.subrange(i, t.children.len() as int) =~= Seq::<TreeView<W>>::empty());
    }
}

/// The innermost widget hit at `pos` in the subtree `t` placed by `c`:
/// follow the first child (in order) whose viewport holds `pos`, down to a
/// node none of whose children's viewports holds it.
pub open spec fn first_hit<W>(t: TreeView<W>, c: DrawContext, pos: Position) -> WidgetId
    decreases t, 1nat, 0int,
{
    first_hit_from(t, 0, c, pos)
}

/// `first_hit` looking at the children of `t` from index `i` on.
pub open spec fn first_hit_from<W>(t: TreeView<W>, i: int, c: DrawContext, pos: Position) -> WidgetId
    decreases t, 0nat, t.children.len() - i,
{
    if 0 <= i < t.children.len() {
        let k = t.children[i];
        match crate::context::child_context(c, k.bounds, k.origin) {
            Some(kc) => if crate::geometry::point_in_rect(pos, kc.viewport) {
                first_hit(k, kc, pos)
            } else {
                first_hit_from(t, i + 1, c, pos)
            },
            None => first_hit_from(t, i + 1, c, pos),
        }
    } else {
        t.id
    }
}

/// Some child of `t` from index `i` on has a viewport holding `pos`.
pub open spec fn has_hit_from<W>(t: TreeView<W>, i: int, c: DrawContext, pos: Position) -> bool
    decreases t.children.len() - i,
{
    if 0 <= i < t.children.len() {
        let k = t.children[i];
        (crate::context::child_context(c, k.bounds, k.origin) matches Some(kc)
            && crate::geometry::point_in_rect(pos, kc.viewport)) || has_hit_from(t, i + 1, c, pos)
    } else {
        false
    }
}

/// Once a hovered widget is recorded, walking more nodes keeps it.
pub proof fn lemma_walk_keeps_hover<W: Widget>(d: EventDispatcher, t: TreeView<W>, parent: DrawContext)
    requires
        d.inside is Some,
    ensures
        crate::visitor::walk(d, t, parent).0.inside == d.inside,
    decreases t, 1nat, 0int,
{
    if !d.consumer.is_some() {
        match crate::context::child_context(parent, t.bounds, t.origin) {
            None => {},
            Some(c) => {
                lemma_walk_from_keeps_hover(d, t, 0, c);
            },
        }
    }
}

proof fn lemma_walk_from_keeps_hover<W: Widget>(d: EventDispatcher, t: TreeView<W>, i: int, c: DrawContext)
    requires
        d.inside is Some,
    ensures
        crate::visitor::walk_from(d, t, i, c).0.inside == d.inside,
    decreases t, 0nat, t.children.len() - i,
{
    if 0 <= i < t.children.len() {
        assert(decreases_to!(t => t.children[i]));
        lemma_walk_keeps_hover(d, t.children[i], c);
        let v1 = crate::visitor::walk(d, t.children[i], c).0;
        if !v1.consumer.is_some() {
            lemma_walk_from_keeps_hover(v1, t, i + 1, c);
        }
    }
}

/// Hit-testing through nested widgets: a pointer move whose position lies
/// in the viewport of `t` is first delivered to the innermost widget on the
/// first hit path, `first_hit`. That widget becomes the hovered one, and
/// the ancestors it is then delivered to keep it as the hover.
pub proof fn lemma_innermost_first<W: Widget>(d: EventDispatcher, t: TreeView<W>, parent: DrawContext)
    requires
        is_position_move(d.event),
        d.consumer is None,
        d.inside is None,
        crate::context::child_context(parent, t.bounds, t.origin) matches Some(c)
            && crate::geometry::point_in_rect(d.ctx.abs_pos, c.viewport),
    ensures
        crate::visitor::walk(d, t, parent).0.inside == Some(
            first_hit(t, crate::context::child_context(parent, t.bounds, t.origin)->Some_0, d.ctx.abs_pos),
        ),
    decreases t, 1nat, 0int,
{
    let c = crate::context::child_context(parent, t.bounds, t.origin)->Some_0;
    lemma_innermost_first_from(d, t, 0, c);
}

proof fn lemma_innermost_first_from<W: Widget>(d: EventDispatcher, t: TreeView<W>, i: int, c: DrawContext)
    requires
        is_position_move(d.event),
        d.consumer is None,
        d.inside is None,
        0 <= i,
    ensures
        has_hit_from(t, i, c, d.ctx.abs_pos) ==> crate::visitor::walk_from(d, t, i, c).0.inside == Some(
            first_hit_from(t, i, c, d.ctx.abs_pos),
        ),
        !has_hit_from(t, i, c, d.ctx.abs_pos) ==> crate::visitor::walk_from(d, t, i, c).0 == d
            && first_hit_from(t, i, c, d.ctx.abs_pos) == t.id,
    decreases t, 0nat, t.children.len() - i,
{
    let pos = d.ctx.abs_pos;
    if i < t.children.len() {
        let k = t.children[i];
        assert(decreases_to!(t => t.children[i]));
        match crate::context::child_context(c, k.bounds, k.origin) {
            Some(kc) => {
                if crate::geometry::point_in_rect(pos, kc.viewport) {
                    lemma_innermost_first(d, k, c);
                    let v1 = crate::visitor::walk(d, k, c).0;
                    if !v1.consumer.is_some() {
                        lemma_walk_from_keeps_hover(v1, t, i + 1, c);
                    }
                } else {
                    lemma_miss_leaves_subtree(d, k, c);
                    lemma_innermost_first_from(d, t, i + 1, c);
                }
            },
            None => {
                lemma_miss_leaves_subtree(d, k, c);
                lemma_innermost_first_from(d, t, i + 1, c);
            },
        }
    }
}

} // verus!
