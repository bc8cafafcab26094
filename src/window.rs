//! Top-level windows and their attributes.
use crate::context::{DrawContext, Paint};
use crate::dispatcher::EventDispatcher;
use crate::event::{Event, EventContext, InputState};
use crate::geometry::{Point, Position, Rect, Size};
use crate::queue::{DrawCommand, DrawQueue};
use crate::widget::{Node, TreeView, Widget, WidgetId};
use vstd::prelude::*;

verus! {

/// Width a window takes when neither it nor its content asks for one.
pub const DEFAULT_WINDOW_WIDTH: u32 = 320;

/// Height a window takes when neither it nor its content asks for one.
pub const DEFAULT_WINDOW_HEIGHT: u32 = 240;

/// Size a window takes when neither it nor its content asks for one.
pub fn default_window_size() -> (r: Size)
    ensures
        r == (Size { w: DEFAULT_WINDOW_WIDTH, h: DEFAULT_WINDOW_HEIGHT }),
{
    Size { w: DEFAULT_WINDOW_WIDTH, h: DEFAULT_WINDOW_HEIGHT }
}

/// The attributes of a window; `C` is the backend's color type.
///
/// A size of zero means "chosen automatically"; unset title and position
/// are left to the backend.
#[derive(Debug, Clone)]
pub struct WindowAttributes<C> {
    pub title: Option<String>,
    pub position: Option<Position>,
    pub size: Size,
    pub min_size: Size,
    pub max_size: Size,
    pub background: Option<C>,
    pub resizable: bool,
    pub maximized: bool,
    pub transparent: bool,
    pub always_on_top: bool,
    pub decorations: bool,
}

impl<C> WindowAttributes<C> {
    /// The default attributes, with the given background (the usual one is
    /// opaque black).
    pub fn new(background: Option<C>) -> (r: Self)
        ensures
            r.title is None,
            r.position is None,
            r.size == (Size { w: 0, h: 0 }),
            r.min_size == (Size { w: 0, h: 0 }),
            r.max_size == (Size { w: 0, h: 0 }),
            r.background == background,
            r.resizable,
            !r.maximized,
            !r.transparent,
            !r.always_on_top,
            r.decorations,
    {
        WindowAttributes {
            title: None,
            position: None,
            size: Size { w: 0, h: 0 },
            min_size: Size { w: 0, h: 0 },
            max_size: Size { w: 0, h: 0 },
            background,
            resizable: true,
            maximized: false,
            transparent: false,
            always_on_top: false,
            decorations: true,
        }
    }

    pub fn set_title(&mut self, title: String)
        ensures
            *final(self) == (WindowAttributes { title: Some(title), ..*old(self) }),
    {
        self.title = Some(title);
    }

    pub fn set_position(&mut self, position: Position)
        ensures
            *final(self) == (WindowAttributes { position: Some(position), ..*old(self) }),
    {
        self.position = Some(position);
    }

    pub fn set_size(&mut self, size: Size)
        ensures
            *final(self) == (WindowAttributes { size: size, ..*old(self) }),
    {
        self.size = size;
    }

    pub fn set_min_size(&mut self, size: Size)
        ensures
            *final(self) == (WindowAttributes { min_size: size, ..*old(self) }),
    {
        self.min_size = size;
    }

    pub fn set_max_size(&mut self, size: Size)
        ensures
            *final(self) == (WindowAttributes { max_size: size, ..*old(self) }),
    {
        self.max_size = size;
    }

    pub fn set_background(&mut self, background: C)
        ensures
            *final(self) == (WindowAttributes { background: Some(background), ..*old(self) }),
    {
        self.background = Some(background);
    }
}

/// Attributes after `event`: a resize sets the size, a move the position.
pub open spec fn attr_after<C>(a: WindowAttributes<C>, event: Event) -> WindowAttributes<C> {
    match event {
        Event::Resized(size) => WindowAttributes { size, ..a },
        Event::Moved(p) => WindowAttributes { position: Some(p), ..a },
        _ => a,
    }
}

/// Top level window: attributes, the event dispatcher, and the widget tree.
#[derive(Debug)]
pub struct Window<W, C> {
    pub attr: WindowAttributes<C>,
    /// Routes input events into `child`.
    pub dispatcher: EventDispatcher,
    pub child: Node<W>,
}

impl<W: Widget, C> Window<W, C> {
    /// Creates a window with default attributes and the given background.
    pub fn new(child: Node<W>, background: Option<C>) -> (r: Self)
        ensures
            r.attr.title is None,
            r.attr.position is None,
            r.attr.size == (Size { w: 0, h: 0 }),
            r.attr.background == background,
            r.child == child,
    {
        Window { attr: WindowAttributes::new(background), dispatcher: EventDispatcher::new(), child }
    }

    /// Creates a window with the specified attributes.
    pub fn new_with_attr(child: Node<W>, attr: WindowAttributes<C>) -> (r: Self)
        ensures
            r.attr == attr,
            r.child == child,
    {
        Window { attr, dispatcher: EventDispatcher::new(), child }
    }

    /// Dispatches an event to the window content; returns the widget that
    /// consumed it, if any.
    pub fn push_event(&mut self, event: Event, ctx: EventContext) -> (r: Option<WidgetId>)
        ensures
            final(self).attr == old(self).attr,
            (final(self).dispatcher, final(self).child.view()) == crate::visitor::walk(
                crate::dispatcher::prepared(old(self).dispatcher, event, ctx),
                old(self).child.view(),
                crate::dispatcher::window_context(old(self).attr.size),
            ),
            r == final(self).dispatcher.consumer,
    {
        self.dispatcher.dispatch_event(event, ctx, self.attr.size, &mut self.child)
    }

    /// Takes an event from the backend: updates the tracked input state and
    /// the window's size or position, then dispatches the event with a
    /// context made from the updated input state.
    pub fn handle_input(&mut self, input: &mut InputState, event: Event, timestamp: u64) -> (r: Option<
        WidgetId,
    >)
        ensures
            *final(input) == crate::event::input_after(*old(input), event),
            final(self).attr == attr_after(old(self).attr, event),
            (final(self).dispatcher, final(self).child.view()) == crate::visitor::walk(
                crate::dispatcher::prepared(
                    old(self).dispatcher,
                    event,
                    EventContext {
                        timestamp,
                        pointer_pos: final(input).last_pos,
                        abs_pos: final(input).last_pos,
                        button_state: final(input).button_state,
                        mod_state: final(input).mod_state,
                    },
                ),
                old(self).child.view(),
                crate::dispatcher::window_context(final(self).attr.size),
            ),
            r == final(self).dispatcher.consumer,
    {
        input.observe(&event);
        match &event {
            Event::Resized(size) => self.attr.set_size(*size),
            Event::Moved(pos) => self.attr.set_position(*pos),
            _ => {},
        }
        let ctx = input.context(timestamp);
        self.push_event(event, ctx)
    }

    /// Lays out the window content. A window without a size first offers
    /// its content the area from the origin to the content's far corner
    /// (or the default size, when that is empty), then takes the size of
    /// what the content chose the same way; a window with a size offers it.
    pub fn update(&mut self)
        ensures
            old(self).attr.size.w == 0 || old(self).attr.size.h == 0 ==> {
                let initial = Rect {
                    pos: Point { x: 0, y: 0 },
                    size: crate::geometry::expanded_to_origin(old(self).child.bounds).size.nonzero_or_spec(
                        Size { w: DEFAULT_WINDOW_WIDTH, h: DEFAULT_WINDOW_HEIGHT },
                    ),
                };
                let (w1, b1) = old(self).child.widget.layout(old(self).child.bounds, initial);
                &&& final(self).child.widget == w1
                &&& final(self).child.bounds == b1
                &&& final(self).attr == (WindowAttributes {
                    size: crate::geometry::expanded_to_origin(b1).size.nonzero_or_spec(
                        Size { w: DEFAULT_WINDOW_WIDTH, h: DEFAULT_WINDOW_HEIGHT },
                    ),
                    ..old(self).attr
                })
            },
            !(old(self).attr.size.w == 0 || old(self).attr.size.h == 0) ==> {
                let (w1, b1) = old(self).child.widget.layout(
                    old(self).child.bounds,
                    Rect { pos: Point { x: 0, y: 0 }, size: old(self).attr.size },
                );
                &&& final(self).child.widget == w1
                &&& final(self).child.bounds == b1
                &&& final(self).attr == old(self).attr
            },
            final(self).child.id == old(self).child.id,
            final(self).child.origin == old(self).child.origin,
            final(self).child.children == old(self).child.children,
            final(self).dispatcher == old(self).dispatcher,
    {
        if self.attr.size.is_zero_area() {
            let expanded = self.child.bounds.expand_to_origin();
            let initial = Rect { pos: expanded.pos, size: expanded.size.nonzero_or(default_window_size()) };
            self.child.widget.update_layout(&mut self.child.bounds, initial);
            let updated = self.child.bounds.expand_to_origin().size.nonzero_or(default_window_size());
            self.attr.set_size(updated);
        } else {
            let area = Rect::from_size(self.attr.size);
            self.child.widget.update_layout(&mut self.child.bounds, area);
        }
    }

    /// Gets the window attributes.
    pub fn get_window_attributes(&self) -> (r: &WindowAttributes<C>)
        ensures
            *r == self.attr,
    {
        &self.attr
    }
}

/// `q1` is `q0` with a clear of the window area in color `bg` appended,
/// when there is a background.
pub open spec fn background_added<V, C>(q0: DrawQueue<V, C>, q1: DrawQueue<V, C>, bg: Option<C>, size: Size) -> bool {
    &&& q1.vertices@ == q0.vertices@
    &&& q1.indices@ == q0.indices@
    &&& q1.commands@ == match bg {
        Some(c) => q0.commands@.push(DrawCommand::Clear(c, crate::geometry::window_rect(size))),
        None => q0.commands@,
    }
}

/// Context the window content is drawn in, if it shows at all.
pub open spec fn content_context<W: Paint<V, C>, V: Copy, C>(child: TreeView<W>, size: Size) -> Option<DrawContext> {
    crate::context::placed_child(
        crate::dispatcher::window_context(size),
        child.bounds,
        child.origin,
        child.widget.clipped(),
    )
}

impl<W: Widget, C: Copy> Window<W, C> {
    /// Draws the window into `dq`, after what it already holds: a clear of
    /// the whole window with the background color when there is one, then
    /// the widget tree.
    pub fn draw<V: Copy>(&self, dq: &mut DrawQueue<V, C>)
        where
            W: Paint<V, C>,
        requires
            old(dq).wf(),
        ensures
            final(dq).wf(),
            exists|q1: DrawQueue<V, C>|
                {
                    &&& #[trigger] background_added(*old(dq), q1, self.attr.background, self.attr.size)
                    &&& *final(dq) == match content_context::<W, V, C>(self.child.view(), self.attr.size) {
                        Some(c) => crate::context::paint_walk(self.child.view(), c, q1),
                        None => q1,
                    }
                },
    {
        let area = Rect::for_window(self.attr.size);
        if let Some(bg) = self.attr.background {
            dq.push_clear(bg, area);
        }
        let ghost q1 = *dq;
        let top = DrawContext::new(area);
        let placed = if self.child.widget.is_clipped() {
            top.draw_child(self.child.bounds, self.child.origin)
        } else {
            top.place_child(self.child.bounds, self.child.origin)
        };
        match placed {
            Some(c) => crate::context::draw_tree(&self.child, &c, dq),
            None => {},
        }
        assert(background_added(*old(dq), q1, self.attr.background, self.attr.size));
    }
}

} // verus!
