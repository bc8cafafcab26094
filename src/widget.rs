//! Widget identity, behaviour, and the tree that holds widgets.
use crate::event::{Event, EventContext, EventResult};
use crate::geometry::{Bounds, Point, Position, Rect, Size};
use vstd::prelude::*;

verus! {

broadcast use {vstd::std_specs::vec::axiom_vec_index_decreases, vstd::seq::axiom_seq_index_decreases};

/// Opaque handle naming a widget.
#[derive(Debug, Clone, Copy, PartialEq, Eq, Structural, Hash, Default)]
pub struct WidgetId(u64);

impl WidgetId {
    /// The number behind the handle.
    pub closed spec fn value(self) -> u64 {
        self.0
    }

    /// Gets the number behind the handle.
    pub fn as_u64(self) -> (r: u64)
        ensures
            r == self.value(),
    {
        self.0
    }
}

/// Source of fresh widget ids: a counter that starts at 1 and only grows.
///
/// A program keeps one for its whole run, so ids are never reused.
#[derive(Debug)]
pub struct IdSource {
    next: u64,
}

impl IdSource {
    /// The value the next id will carry.
    pub closed spec fn upcoming(&self) -> u64 {
        self.next
    }

    pub fn new() -> (r: Self)
        ensures
            r.upcoming() == 1,
    {
        IdSource { next: 1 }
    }

    /// Hands out a new id, larger than every id handed out before.
    ///
    /// Returns `None` once the counter is exhausted.
    pub fn next_id(&mut self) -> (r: Option<WidgetId>)
        ensures
            old(self).upcoming() < u64::MAX ==> (r matches Some(id) && id.value() == old(
                self,
            ).upcoming()) && final(self).upcoming() == old(self).upcoming() + 1,
            old(self).upcoming() == u64::MAX ==> r is None && final(self).upcoming() == old(
                self,
            ).upcoming(),
    {
        if self.next == u64::MAX {
            None
        } else {
            let id = WidgetId(self.next);
            self.next = self.next + 1;
            Some(id)
        }
    }
}

/// An object that has an identity.
pub trait ObjectId {
    spec fn id_view(&self) -> WidgetId;

    /// Return this object's id.
    fn get_id(&self) -> (r: WidgetId)
        ensures
            r == self.id_view(),
    ;
}

/// Behaviour of a widget: how it reacts to input.
///
/// The spec functions describe the reaction as a function of the widget's
/// state, the event and its context.
pub trait Widget: Sized {
    /// New state and result after handling `event`.
    spec fn on_event(self, event: Event, ctx: EventContext) -> (Self, EventResult);

    /// New state after a descendant consumed `event`.
    spec fn on_consumed(self, event: Event, ctx: EventContext) -> Self;

    /// New state and bounds after laying the widget out inside
    /// `parent_rect`.
    spec fn layout(self, bounds: Rect, parent_rect: Rect) -> (Self, Rect);

    /// Updates the widget's layout (and its bounds) for the given parent
    /// area.
    fn update_layout(&mut self, bounds: &mut Rect, parent_rect: Rect)
        ensures
            (*final(self), *final(bounds)) == old(self).layout(*old(bounds), parent_rect),
    ;

    /// Handles an event sent to this widget.
    fn handle_event(&mut self, event: &Event, ctx: &EventContext) -> (r: EventResult)
        ensures
            (*final(self), r) == old(self).on_event(*event, *ctx),
    ;

    /// Notification that a descendant consumed `event`.
    fn event_consumed(&mut self, event: &Event, ctx: &EventContext)
        ensures
            *final(self) == old(self).on_consumed(*event, *ctx),
    ;
}

/// A node of a widget tree: a widget with its identity, bounds (relative to
/// the parent's origin), viewport origin, and the children it owns.
#[derive(Debug)]
pub struct Node<W> {
    pub id: WidgetId,
    pub bounds: Rect,
    /// Scroll or pan offset applied to the children's drawing.
    pub origin: Position,
    pub widget: W,
    pub children: Vec<Node<W>>,
}

/// Mathematical picture of a widget tree.
pub struct TreeView<W> {
    pub id: WidgetId,
    pub bounds: Rect,
    pub origin: Position,
    pub widget: W,
    pub children: Seq<TreeView<W>>,
}

impl<W> Node<W> {
    pub open spec fn view(self) -> TreeView<W>
        decreases self, 0nat,
    {
        TreeView {
            id: self.id,
            bounds: self.bounds,
            origin: self.origin,
            widget: self.widget,
            children: Self::views_from(self.children, 0),
        }
    }

    /// Views of the nodes of `kids` from index `i` on.
    pub open spec fn views_from(kids: Vec<Node<W>>, i: int) -> Seq<TreeView<W>>
        decreases kids, kids@.len() - i,
    {
        if 0 <= i < kids@.len() {
            seq![kids@[i].view()] + Self::views_from(kids, i + 1)
        } else {
            seq![]
        }
    }

    /// A leaf node.
    pub fn new(id: WidgetId, bounds: Rect, widget: W) -> (r: Self)
        ensures
            r.id == id,
            r.bounds == bounds,
            r.origin == (Point { x: 0i32, y: 0i32 }),
            r.widget == widget,
            r.children@ == Seq::<Node<W>>::empty(),
    {
        Node { id, bounds, origin: Point { x: 0, y: 0 }, widget, children: Vec::new() }
    }

    /// Appends a child after the existing ones.
    pub fn push_child(&mut self, child: Node<W>)
        ensures
            final(self).id == old(self).id,
            final(self).bounds == old(self).bounds,
            final(self).origin == old(self).origin,
            final(self).widget == old(self).widget,
            final(self).children@ == old(self).children@.push(child),
    {
        self.children.push(child);
    }
}

/// The view of a node lists the views of its children, in order.
pub proof fn lemma_views_from<W>(kids: Vec<Node<W>>, i: int)
    requires
        0 <= i <= kids@.len(),
    ensures
        Node::<W>::views_from(kids, i).len() == kids@.len() - i,
        forall|j: int|
            0 <= j < kids@.len() - i ==> #[trigger] Node::<W>::views_from(kids, i)[j] == kids@[i
                + j].view(),
    decreases kids@.len() - i,
{
    if i < kids@.len() {
        lemma_views_from(kids, i + 1);
        assert forall|j: int| 0 <= j < kids@.len() - i implies #[trigger] Node::<W>::views_from(
            kids,
            i,
        )[j] == kids@[i + j].view() by {
            if j > 0 {
                assert(Node::<W>::views_from(kids, i)[j] == Node::<W>::views_from(kids, i + 1)[j - 1]);
            }
        }
    }
}

impl<W> ObjectId for Node<W> {
    open spec fn id_view(&self) -> WidgetId {
        self.id
    }

    fn get_id(&self) -> (r: WidgetId) {
        self.id
    }
}

impl<W> Bounds for Node<W> {
    open spec fn bounds_view(&self) -> Rect {
        self.bounds
    }

    fn get_position(&self) -> (r: Position) {
        self.bounds.pos
    }

    fn get_size(&self) -> (r: Size) {
        self.bounds.size
    }

    fn set_position(&mut self, position: Position) {
        self.bounds.pos = position;
    }

    fn set_size(&mut self, size: Size) {
        self.bounds.size = size;
    }
}

/// The empty widget: a filler that only occupies space and ignores input.
#[derive(Debug)]
pub struct Empty {
    bounds: Rect,
}

impl Empty {
    pub fn new() -> (r: Self)
        ensures
            r.bounds_view() == (Rect { pos: Point { x: 0i32, y: 0i32 }, size: Size { w: 0u32, h: 0u32 } }),
    {
        Empty { bounds: Rect { pos: Point { x: 0, y: 0 }, size: Size { w: 0, h: 0 } } }
    }

    pub fn with_bounds(bounds: Rect) -> (r: Self)
        ensures
            r.bounds_view() == bounds,
    {
        Empty { bounds }
    }

    /// An empty widget at the origin with the given size.
    pub fn with_size(size: Size) -> (r: Self)
        ensures
            r.bounds_view() == (Rect { pos: Point { x: 0i32, y: 0i32 }, size }),
    {
        Empty { bounds: Rect::from_size(size) }
    }
}

impl ObjectId for Empty {
    closed spec fn id_view(&self) -> WidgetId {
        WidgetId(0)
    }

    fn get_id(&self) -> (r: WidgetId) {
        WidgetId(0)
    }
}

impl Bounds for Empty {
    closed spec fn bounds_view(&self) -> Rect {
        self.bounds
    }

    fn get_position(&self) -> (r: Position) {
        self.bounds.pos
    }

    fn get_size(&self) -> (r: Size) {
        self.bounds.size
    }

    fn set_position(&mut self, position: Position) {
        self.bounds.pos = position;
    }

    fn set_size(&mut self, size: Size) {
        self.bounds.size = size;
    }

    fn get_bounds(&self) -> (r: Rect) {
        self.bounds
    }
}

impl Widget for Empty {
    open spec fn on_event(self, event: Event, ctx: EventContext) -> (Self, EventResult) {
        (self, EventResult::Pass)
    }

    open spec fn on_consumed(self, event: Event, ctx: EventContext) -> Self {
        self
    }

    open spec fn layout(self, bounds: Rect, parent_rect: Rect) -> (Self, Rect) {
        (self, bounds)
    }

    fn update_layout(&mut self, bounds: &mut Rect, parent_rect: Rect) {
    }

    fn handle_event(&mut self, event: &Event, ctx: &EventContext) -> (r: EventResult) {
        EventResult::Pass
    }

    fn event_consumed(&mut self, event: &Event, ctx: &EventContext) {
    }
}

impl<V: Copy, C> crate::context::Paint<V, C> for Empty {
    open spec fn painted(
        &self,
        bounds: Rect,
        dc: crate::context::DrawContext,
        dq: crate::queue::DrawQueue<V, C>,
    ) -> crate::queue::DrawQueue<V, C> {
        dq
    }

    open spec fn clipped(&self) -> bool {
        true
    }

    fn draw(&self, bounds: Rect, dc: &crate::context::DrawContext, dq: &mut crate::queue::DrawQueue<V, C>) {
    }

    fn is_clipped(&self) -> (r: bool) {
        true
    }
}

} // verus!
