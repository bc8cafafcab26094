use rtk::dispatcher::EventDispatcher;
use rtk::event::{
    AxisValue, ButtonState, EvState, Event, EventContext, EventResult, InputState, Key, ModState, MouseButton,
};
use rtk::geometry::{Point, Position, Rect, Size};
use rtk::context::{DrawContext, Paint};
use rtk::queue::{DrawCommand, DrawQueue};
use rtk::visitor::{accept, Visitor};
use rtk::widget::{Empty, IdSource, Node, Widget, WidgetId};
use rtk::window::{Window, WindowAttributes};
use std::cell::RefCell;
use std::rc::Rc;

type Log = Rc<RefCell<Vec<String>>>;

struct Probe {
    name: &'static str,
    consume: bool,
    log: Log,
}

impl Widget for Probe {
    fn on_event(self, _event: Event, _ctx: EventContext) -> (Self, EventResult) {
        let r = if self.consume { EventResult::Consumed } else { EventResult::Pass };
        (self, r)
    }

    fn on_consumed(self, _event: Event, _ctx: EventContext) -> Self {
        self
    }

    fn layout(self, bounds: Rect, parent_rect: Rect) -> (Self, Rect) {
        (self, Rect::new(bounds.pos, parent_rect.size))
    }

    fn update_layout(&mut self, bounds: &mut Rect, parent_rect: Rect) {
        self.log.borrow_mut().push(format!("{}:layout", self.name));
        bounds.size = parent_rect.size;
    }

    fn handle_event(&mut self, _event: &Event, _ctx: &EventContext) -> EventResult {
        self.log.borrow_mut().push(format!("{}:handle", self.name));
        if self.consume {
            EventResult::Consumed
        } else {
            EventResult::Pass
        }
    }

    fn event_consumed(&mut self, _event: &Event, _ctx: &EventContext) {
        self.log.borrow_mut().push(format!("{}:consumed", self.name));
    }
}

fn rect(x: i32, y: i32, w: u32, h: u32) -> Rect {
    Rect::new(Point::new(x, y), Size::new(w, h))
}

fn ctx_at(x: i32, y: i32) -> EventContext {
    EventContext::new(0, Point::new(x, y), ButtonState::default(), ModState::default())
}

struct Tree {
    root: Node<Probe>,
    outer_id: WidgetId,
    inner_id: WidgetId,
    side_id: WidgetId,
    log: Log,
}

/// outer (0,0,200,200) holds inner at (10,10,50,50) and side at (100,100,50,50).
fn nested(consume_inner: bool) -> Tree {
    let log: Log = Rc::new(RefCell::new(Vec::new()));
    let mut ids = IdSource::new();
    let outer_id = ids.next_id().unwrap();
    let inner_id = ids.next_id().unwrap();
    let side_id = ids.next_id().unwrap();
    let mut root = Node::new(outer_id, rect(0, 0, 200, 200), Probe { name: "outer", consume: false, log: log.clone() });
    root.push_child(Node::new(inner_id, rect(10, 10, 50, 50), Probe { name: "inner", consume: consume_inner, log: log.clone() }));
    root.push_child(Node::new(side_id, rect(100, 100, 50, 50), Probe { name: "side", consume: false, log: log.clone() }));
    Tree { root, outer_id, inner_id, side_id, log }
}

fn entries(log: &Log) -> Vec<String> {
    log.borrow().clone()
}

#[test]
fn pointer_inside_innermost_first() {
    let mut t = nested(false);
    let mut d = EventDispatcher::new();
    let ev = Event::MouseMoved(AxisValue::Position(Point::new(20, 20)));
    let r = d.dispatch_event(ev, ctx_at(20, 20), Size::new(640, 480), &mut t.root);
    assert_eq!(r, None);
    assert_eq!(entries(&t.log), vec!["inner:handle".to_string(), "outer:handle".to_string()]);
    assert_eq!(d.inside, Some(t.inner_id));
    assert_ne!(d.inside, Some(t.outer_id));
}

#[test]
fn pointer_outside_never_reaches_widget() {
    let mut t = nested(false);
    let mut d = EventDispatcher::new();
    let ev = Event::MouseButton { state: EvState::Pressed, button: MouseButton::Left };
    let r = d.dispatch_event(ev, ctx_at(120, 120), Size::new(640, 480), &mut t.root);
    assert_eq!(r, None);
    let got = entries(&t.log);
    assert_eq!(got, vec!["side:handle".to_string(), "outer:handle".to_string()]);
    assert!(!got.iter().any(|e| e.starts_with("inner")));

    // outside the whole tree: nobody hears of it
    let mut t = nested(false);
    let ev = Event::MouseButton { state: EvState::Pressed, button: MouseButton::Left };
    let r = d.dispatch_event(ev, ctx_at(300, 300), Size::new(640, 480), &mut t.root);
    assert_eq!(r, None);
    assert!(entries(&t.log).is_empty());
}

#[test]
fn consumption_stops_and_notifies_ancestors() {
    let mut t = nested(true);
    let mut d = EventDispatcher::new();
    let ev = Event::MouseButton { state: EvState::Pressed, button: MouseButton::Left };
    let r = d.dispatch_event(ev, ctx_at(20, 20), Size::new(640, 480), &mut t.root);
    assert_eq!(r, Some(t.inner_id));
    assert_eq!(entries(&t.log), vec!["inner:handle".to_string(), "outer:consumed".to_string()]);
}

#[test]
fn keyboard_is_broadcast_without_focus() {
    let mut t = nested(false);
    let mut d = EventDispatcher::new();
    let ev = Event::Keyboard { state: EvState::Pressed, key: Key::Letter('a'), scancode: 30 };
    let r = d.dispatch_event(ev, ctx_at(500, 500), Size::new(640, 480), &mut t.root);
    assert_eq!(r, None);
    assert_eq!(
        entries(&t.log),
        vec!["inner:handle".to_string(), "side:handle".to_string(), "outer:handle".to_string()]
    );
}

#[test]
fn keyboard_goes_to_focus_only() {
    let mut t = nested(false);
    let mut d = EventDispatcher::new();
    d.set_focus(Some(t.side_id));
    let r = d.dispatch_event(Event::Character('x'), ctx_at(0, 0), Size::new(640, 480), &mut t.root);
    assert_eq!(r, None);
    assert_eq!(entries(&t.log), vec!["side:handle".to_string()]);
}

#[test]
fn other_events_are_not_delivered() {
    let mut t = nested(true);
    let mut d = EventDispatcher::new();
    let r = d.dispatch_event(Event::Resized(Size::new(10, 10)), ctx_at(20, 20), Size::new(640, 480), &mut t.root);
    assert_eq!(r, None);
    let r = d.dispatch_event(Event::CloseRequest, ctx_at(20, 20), Size::new(640, 480), &mut t.root);
    assert_eq!(r, None);
    assert!(entries(&t.log).is_empty());
}

#[test]
fn file_drop_is_hit_tested() {
    let mut t = nested(true);
    let mut d = EventDispatcher::new();
    let r = d.dispatch_event(Event::FileDropped("a.txt".to_string()), ctx_at(20, 20), Size::new(640, 480), &mut t.root);
    assert_eq!(r, Some(t.inner_id));
}

#[test]
fn clipped_child_is_skipped() {
    let log: Log = Rc::new(RefCell::new(Vec::new()));
    let mut ids = IdSource::new();
    let mut root = Node::new(ids.next_id().unwrap(), rect(0, 0, 100, 100), Probe { name: "root", consume: false, log: log.clone() });
    // lies entirely outside its parent
    root.push_child(Node::new(ids.next_id().unwrap(), rect(150, 150, 10, 10), Probe { name: "lost", consume: true, log: log.clone() }));
    let mut d = EventDispatcher::new();
    let r = d.dispatch_event(Event::Character('q'), ctx_at(0, 0), Size::new(640, 480), &mut root);
    assert_eq!(r, None);
    assert_eq!(entries(&log), vec!["root:handle".to_string()]);
}

#[test]
fn hover_moves_to_last_inside() {
    let mut t = nested(false);
    let mut d = EventDispatcher::new();
    let ev = Event::MouseMoved(AxisValue::Position(Point::new(20, 20)));
    d.dispatch_event(ev, ctx_at(20, 20), Size::new(640, 480), &mut t.root);
    let ev = Event::MouseMoved(AxisValue::Position(Point::new(120, 120)));
    d.dispatch_event(ev, ctx_at(120, 120), Size::new(640, 480), &mut t.root);
    assert_eq!(d.last_inside, Some(t.inner_id));
    assert_eq!(d.inside, Some(t.side_id));
}

/// Counts the nodes it enters and finishes after the first one whose id matches.
struct FindFirst {
    target: WidgetId,
    found: bool,
    entered: usize,
}

impl<W> Visitor<W> for FindFirst {
    type Context = ();

    fn done(&self) -> bool {
        self.found
    }

    fn context_for(&self, _id: WidgetId, _bounds: Rect, _origin: Position, _parent: ()) -> Option<()> {
        Some(())
    }

    fn enter(self, id: WidgetId, _bounds: Rect, widget: W, _ctx: ()) -> (Self, W) {
        let found = self.found || id == self.target;
        (FindFirst { target: self.target, found, entered: self.entered + 1 }, widget)
    }

    fn leave(self, _id: WidgetId, _bounds: Rect, widget: W, _ctx: ()) -> (Self, W) {
        (self, widget)
    }

    fn finished(&self) -> bool {
        self.found
    }

    fn new_context(&self, _id: WidgetId, _bounds: Rect, _origin: Position, _parent: &()) -> Option<()> {
        Some(())
    }

    fn visit_before(&mut self, id: WidgetId, _bounds: Rect, _widget: &mut W, _ctx: &()) {
        self.entered += 1;
        if id == self.target {
            self.found = true;
        }
    }

    fn visit_after(&mut self, _id: WidgetId, _bounds: Rect, _widget: &mut W, _ctx: &()) {}
}

#[test]
fn early_exit_after_first_match() {
    // root -> [a -> [a1, a2], b -> [b1]]
    let mut ids = IdSource::new();
    let root_id = ids.next_id().unwrap();
    let a_id = ids.next_id().unwrap();
    let a1_id = ids.next_id().unwrap();
    let a2_id = ids.next_id().unwrap();
    let b_id = ids.next_id().unwrap();
    let b1_id = ids.next_id().unwrap();
    let r = rect(0, 0, 10, 10);
    let mut a = Node::new(a_id, r, Empty::new());
    a.push_child(Node::new(a1_id, r, Empty::new()));
    a.push_child(Node::new(a2_id, r, Empty::new()));
    let mut b = Node::new(b_id, r, Empty::new());
    b.push_child(Node::new(b1_id, r, Empty::new()));
    let mut root = Node::new(root_id, r, Empty::new());
    root.push_child(a);
    root.push_child(b);

    let mut v = FindFirst { target: a1_id, found: false, entered: 0 };
    accept(&mut root, &mut v, &());
    assert!(v.found);
    // root, a, a1; neither a2 nor b nor b1
    assert_eq!(v.entered, 3);

    let mut v = FindFirst { target: b1_id, found: false, entered: 0 };
    accept(&mut root, &mut v, &());
    assert_eq!(v.entered, 6);

    let mut v = FindFirst { target: root_id, found: false, entered: 0 };
    accept(&mut root, &mut v, &());
    assert_eq!(v.entered, 1);

    // a finished visitor enters nothing
    let mut v = FindFirst { target: root_id, found: true, entered: 0 };
    accept(&mut root, &mut v, &());
    assert_eq!(v.entered, 0);
}

#[test]
fn window_routes_events() {
    let t = nested(true);
    let inner_id = t.inner_id;
    let mut w: Window<Probe, u32> = Window::new(t.root, Some(0xff000000));
    w.attr.set_size(Size::new(300, 300));
    let ev = Event::MouseButton { state: EvState::Released, button: MouseButton::Right };
    assert_eq!(w.push_event(ev, ctx_at(30, 30)), Some(inner_id));
    // the window is too small to show the pointer position
    w.attr.set_size(Size::new(5, 5));
    let ev = Event::MouseButton { state: EvState::Released, button: MouseButton::Right };
    assert_eq!(w.push_event(ev, ctx_at(30, 30)), None);
}

#[test]
fn window_attribute_defaults() {
    let attr: WindowAttributes<u32> = WindowAttributes::new(Some(0xff000000));
    assert_eq!(attr.title, None);
    assert_eq!(attr.position, None);
    assert_eq!(attr.size, Size::new(0, 0));
    assert_eq!(attr.min_size, Size::new(0, 0));
    assert_eq!(attr.max_size, Size::new(0, 0));
    assert_eq!(attr.background, Some(0xff000000));
    assert!(attr.resizable);
    assert!(!attr.maximized);
    assert!(!attr.transparent);
    assert!(!attr.always_on_top);
    assert!(attr.decorations);
    let mut attr = attr;
    attr.set_title("hello".to_string());
    attr.set_position(Position::new(4, 5));
    attr.set_min_size(Size::new(1, 2));
    attr.set_max_size(Size::new(800, 600));
    attr.set_background(7);
    assert_eq!(attr.title, Some("hello".to_string()));
    assert_eq!(attr.position, Some(Point::new(4, 5)));
    assert_eq!(attr.min_size, Size::new(1, 2));
    assert_eq!(attr.max_size, Size::new(800, 600));
    assert_eq!(attr.background, Some(7));
    assert_eq!(rtk::window::default_window_size(), Size::new(320, 240));
}

#[test]
fn window_update_sizes_from_content() {
    let t = nested(false);
    let mut w: Window<Probe, u32> = Window::new(t.root, None);
    // no size yet: the content is offered the area up to its far corner
    w.update();
    assert_eq!(w.child.bounds, rect(0, 0, 200, 200));
    assert_eq!(w.attr.size, Size::new(200, 200));
    // with a size, the content gets the window area
    w.attr.set_size(Size::new(640, 480));
    w.update();
    assert_eq!(w.child.bounds, rect(0, 0, 640, 480));
    assert_eq!(w.attr.size, Size::new(640, 480));
    assert_eq!(entries(&t.log), vec!["outer:layout".to_string(), "outer:layout".to_string()]);
}

#[test]
fn window_update_falls_back_to_default_size() {
    let log: Log = Rc::new(RefCell::new(Vec::new()));
    let mut ids = IdSource::new();
    let root = Node::new(ids.next_id().unwrap(), rect(0, 0, 0, 0), Probe { name: "r", consume: false, log });
    let mut w: Window<Probe, u32> = Window::new(root, None);
    w.update();
    assert_eq!(w.attr.size, Size::new(320, 240));
    assert_eq!(w.child.bounds, rect(0, 0, 320, 240));
}

#[test]
fn window_handle_input_tracks_state() {
    let t = nested(true);
    let inner_id = t.inner_id;
    let mut w: Window<Probe, u32> = Window::new(t.root, None);
    let mut input = InputState::new();
    assert_eq!(w.handle_input(&mut input, Event::Resized(Size::new(400, 300)), 1), None);
    assert_eq!(w.attr.size, Size::new(400, 300));
    assert_eq!(w.handle_input(&mut input, Event::Moved(Point::new(7, 8)), 2), None);
    assert_eq!(w.attr.position, Some(Point::new(7, 8)));
    // the inner probe consumes whatever reaches it
    let ev = Event::MouseMoved(AxisValue::Position(Point::new(25, 30)));
    assert_eq!(w.handle_input(&mut input, ev, 3), Some(inner_id));
    assert_eq!(input.last_pos, Point::new(25, 30));
    let ev = Event::MouseButton { state: EvState::Pressed, button: MouseButton::Left };
    assert_eq!(w.handle_input(&mut input, ev, 4), Some(inner_id));
    assert!(input.button_state.left());
    let ev = Event::MouseButton { state: EvState::Released, button: MouseButton::Left };
    w.handle_input(&mut input, ev, 5);
    assert!(!input.button_state.left());
    // a button without a bit is ignored
    let ev = Event::MouseButton { state: EvState::Pressed, button: MouseButton::Other(200) };
    w.handle_input(&mut input, ev, 6);
    assert_eq!(input.button_state.0, 0);
    input.set_modifiers(ModState { shift: true, ctrl: false, alt: false, meta: false });
    let c = input.context(9);
    assert_eq!(c.timestamp, 9);
    assert_eq!(c.abs_pos, Point::new(25, 30));
    assert!(c.mod_state.shift);
}

impl Paint<u8, u32> for Probe {
    fn painted(&self, bounds: Rect, dc: DrawContext, dq: DrawQueue<u8, u32>) -> DrawQueue<u8, u32> {
        let mut dq = dq;
        self.draw(bounds, &dc, &mut dq);
        dq
    }

    fn clipped(&self) -> bool {
        self.name != "free"
    }

    fn draw(&self, _bounds: Rect, dc: &DrawContext, dq: &mut DrawQueue<u8, u32>) {
        self.log.borrow_mut().push(format!("{}:draw", self.name));
        dq.push_clear(0, dc.viewport);
    }

    fn is_clipped(&self) -> bool {
        self.clipped()
    }
}

#[test]
fn window_draw_appends_background_and_tree() {
    let t = nested(false);
    let mut w: Window<Probe, u32> = Window::new(t.root, Some(0xff000000));
    w.attr.set_size(Size::new(100, 50));
    let mut dq: DrawQueue<u8, u32> = DrawQueue::new();
    dq.push_clear(5, rect(0, 0, 1, 1));
    w.draw(&mut dq);
    assert_eq!(
        dq.commands,
        vec![
            DrawCommand::Clear(5, rect(0, 0, 1, 1)),
            DrawCommand::Clear(0xff000000, rect(0, 0, 100, 50)),
            // outer, clipped to the window; inner; side lies outside
            DrawCommand::Clear(0, rect(0, 0, 100, 50)),
            DrawCommand::Clear(0, rect(10, 10, 50, 40)),
        ]
    );
    assert_eq!(entries(&t.log), vec!["outer:draw".to_string(), "inner:draw".to_string()]);

    w.attr.background = None;
    let mut dq: DrawQueue<u8, u32> = DrawQueue::new();
    w.draw(&mut dq);
    assert_eq!(dq.commands.len(), 2);
}

#[test]
fn scrolled_parent_moves_children() {
    // the outer panel is scrolled by (5, 5): its children sit 5 pixels up and left
    let mut t = nested(true);
    t.root.origin = Point::new(5, 5);
    let mut d = EventDispatcher::new();
    let ev = Event::MouseButton { state: EvState::Pressed, button: MouseButton::Left };
    assert_eq!(d.dispatch_event(ev.clone(), ctx_at(7, 7), Size::new(640, 480), &mut t.root), Some(t.inner_id));
    let log_len = entries(&t.log).len();
    // (57, 57) lay in inner's bounds before scrolling; now only outer holds it
    assert_eq!(d.dispatch_event(ev, ctx_at(57, 57), Size::new(640, 480), &mut t.root), None);
    assert_eq!(entries(&t.log).len(), log_len + 1);

    let dc = DrawContext::new(rect(0, 0, 200, 200));
    let outer = dc.draw_child(rect(0, 0, 200, 200), Point::new(5, 5)).unwrap();
    assert_eq!(outer.offset, Point::new(-5, -5));
    let inner = outer.draw_child(rect(10, 10, 50, 50), Point::new(0, 0)).unwrap();
    assert_eq!(inner.viewport, rect(5, 5, 50, 50));
    assert_eq!(inner.offset, Point::new(5, 5));
}

struct Where {
    seen: Rc<RefCell<Vec<Position>>>,
}

impl Widget for Where {
    fn on_event(self, _event: Event, _ctx: EventContext) -> (Self, EventResult) {
        (self, EventResult::Pass)
    }
    fn on_consumed(self, _event: Event, _ctx: EventContext) -> Self {
        self
    }
    fn layout(self, bounds: Rect, _parent_rect: Rect) -> (Self, Rect) {
        (self, bounds)
    }
    fn update_layout(&mut self, _bounds: &mut Rect, _parent_rect: Rect) {}
    fn handle_event(&mut self, _event: &Event, ctx: &EventContext) -> EventResult {
        self.seen.borrow_mut().push(ctx.pointer_pos);
        EventResult::Pass
    }
    fn event_consumed(&mut self, _event: &Event, _ctx: &EventContext) {}
}

#[test]
fn pointer_position_is_widget_relative() {
    let seen = Rc::new(RefCell::new(Vec::new()));
    let mut ids = IdSource::new();
    let mut root = Node::new(ids.next_id().unwrap(), rect(100, 50, 300, 300), Where { seen: seen.clone() });
    root.push_child(Node::new(ids.next_id().unwrap(), rect(20, 30, 50, 50), Where { seen: seen.clone() }));
    let mut d = EventDispatcher::new();
    let ev = Event::MouseMoved(AxisValue::Position(Point::new(130, 90)));
    d.dispatch_event(ev, ctx_at(130, 90), Size::new(640, 480), &mut root);
    // child first (origin at (120, 80)), then the parent (origin at (100, 50))
    assert_eq!(*seen.borrow(), vec![Point::new(10, 10), Point::new(30, 40)]);
}

#[test]
fn deepest_nested_widget_hit_first() {
    let log: Log = Rc::new(RefCell::new(Vec::new()));
    let mut ids = IdSource::new();
    let a = ids.next_id().unwrap();
    let b = ids.next_id().unwrap();
    let c = ids.next_id().unwrap();
    let mut w1 = Node::new(b, rect(10, 10, 100, 100), Probe { name: "w1", consume: false, log: log.clone() });
    w1.push_child(Node::new(c, rect(10, 10, 20, 20), Probe { name: "w2", consume: false, log: log.clone() }));
    let mut w0 = Node::new(a, rect(0, 0, 300, 300), Probe { name: "w0", consume: false, log: log.clone() });
    w0.push_child(w1);
    let mut d = EventDispatcher::new();
    let ev = Event::MouseMoved(AxisValue::Position(Point::new(25, 25)));
    assert_eq!(d.dispatch_event(ev, ctx_at(25, 25), Size::new(640, 480), &mut w0), None);
    assert_eq!(d.inside, Some(c));
    assert_eq!(
        entries(&log),
        vec!["w2:handle".to_string(), "w1:handle".to_string(), "w0:handle".to_string()]
    );
}
