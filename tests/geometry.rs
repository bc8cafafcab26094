use rtk::geometry::{Bounds, Point, Position, Rect, Size};
use rtk::widget::{IdSource, ObjectId, WidgetId};

fn rect(x: i32, y: i32, w: u32, h: u32) -> Rect {
    Rect::new(Point::new(x, y), Size::new(w, h))
}

#[test]
fn clip_inside_overlapping_corner() {
    let a = rect(0, 0, 100, 100);
    let b = rect(50, 50, 100, 100);
    assert_eq!(a.clip_inside(b), Some(rect(50, 50, 50, 50)));
    assert_eq!(b.clip_inside(a), Some(rect(50, 50, 50, 50)));
}

#[test]
fn clip_inside_disjoint_and_touching() {
    let a = rect(0, 0, 10, 10);
    assert_eq!(a.clip_inside(rect(20, 20, 5, 5)), None);
    // sharing only an edge covers no pixel
    assert_eq!(a.clip_inside(rect(10, 0, 5, 5)), None);
    assert_eq!(a.clip_inside(rect(0, 10, 5, 5)), None);
    // zero-sized rectangles clip to nothing
    assert_eq!(a.clip_inside(rect(2, 2, 0, 5)), None);
}

#[test]
fn clip_inside_contained() {
    let outer = rect(-5, -5, 100, 100);
    let inner = rect(10, 20, 30, 40);
    let c = inner.clip_inside(outer).unwrap();
    assert_eq!(c, inner);
    assert!(c.x() >= outer.x() && c.end_x() <= outer.end_x());
    assert!(c.y() >= outer.y() && c.end_y() <= outer.end_y());
}

#[test]
fn clip_offset_inside_moves_first() {
    let child = rect(5, 5, 10, 10);
    let vp = rect(100, 100, 12, 50);
    assert_eq!(child.clip_offset_inside(Point::new(100, 100), vp), Some(rect(105, 105, 7, 10)));
}

#[test]
fn point_inside_includes_edges() {
    let r = rect(10, 10, 20, 20);
    assert!(Point::new(10, 10).inside(r));
    assert!(Point::new(30, 30).inside(r));
    assert!(r.contains(Point::new(15, 25)));
    assert!(!Point::new(31, 15).inside(r));
    assert!(!Point::new(9, 15).inside(r));
}

#[test]
fn point_helpers() {
    let p: Position = Point::new(3, -4);
    assert_eq!(p.with_x(7), Point::new(7, -4));
    assert_eq!(p.with_y(1), Point::new(3, 1));
    assert_eq!(p.offset(2, 2), Point::new(5, -2));
    assert_eq!(p.map(|a: i32| a * 2), Point::new(6, -8));
    assert_eq!(p.map2(Point::new(1, 1), |a: i32, b: i32| a - b), Point::new(2, -5));
    let mut q = p;
    q.map_mut(|a: i32| a + 10);
    assert_eq!(q, Point::new(13, 6));
    q.map2_mut(Point::new(3, 6), |a: i32, b: i32| a - b);
    assert_eq!(q, Point::new(10, 0));
    assert_eq!(p.as_size(), Size::new(3, 0));
}

#[test]
fn size_helpers() {
    assert!(Size::new(0, 5).is_zero_area());
    assert!(!Size::new(1, 5).is_zero_area());
    assert_eq!(Size::new(0, 5).nonzero_or(Size::new(320, 240)), Size::new(320, 240));
    assert_eq!(Size::new(2, 5).nonzero_or(Size::new(320, 240)), Size::new(2, 5));
    assert_eq!(Size::new(u32::MAX, 2).area(), u32::MAX as u64 * 2);
    assert_eq!(Size::zero(), Size::new(0, 0));
}

#[test]
fn rect_offset_and_window() {
    let r = rect(1, 2, 3, 4).offset(Point::new(10, 20));
    assert_eq!(r, rect(11, 22, 3, 4));
    assert_eq!(Rect::for_window(Size::new(640, 480)), rect(0, 0, 640, 480));
    assert_eq!(Rect::for_window(Size::new(u32::MAX, 5)), rect(0, 0, i32::MAX as u32, 5));
}

struct TestStruct1 {
    val: i32,
    my_rect: Rect,
    stuff: String,
}

impl Bounds for TestStruct1 {
    fn bounds_view(&self) -> Rect {
        self.my_rect
    }
    fn get_position(&self) -> Position {
        self.my_rect.pos
    }
    fn get_size(&self) -> Size {
        self.my_rect.size
    }
    fn set_position(&mut self, position: Position) {
        self.my_rect.pos = position;
    }
    fn set_size(&mut self, size: Size) {
        self.my_rect.size = size;
    }
}

struct TestStruct2 {
    val: i32,
    pos: Position,
    size: Size,
}

impl Bounds for TestStruct2 {
    fn bounds_view(&self) -> Rect {
        Rect::new(self.pos, self.size)
    }
    fn get_position(&self) -> Position {
        self.pos
    }
    fn get_size(&self) -> Size {
        self.size
    }
    fn set_position(&mut self, position: Position) {
        self.pos = position;
    }
    fn set_size(&mut self, size: Size) {
        self.size = size;
    }
}

struct TestTuple1(i32, Rect, String);

impl Bounds for TestTuple1 {
    fn bounds_view(&self) -> Rect {
        self.1
    }
    fn get_position(&self) -> Position {
        self.1.pos
    }
    fn get_size(&self) -> Size {
        self.1.size
    }
    fn set_position(&mut self, position: Position) {
        self.1.pos = position;
    }
    fn set_size(&mut self, size: Size) {
        self.1.size = size;
    }
}

struct TestTuple2(i32, Size, Position);

impl Bounds for TestTuple2 {
    fn bounds_view(&self) -> Rect {
        Rect::new(self.2, self.1)
    }
    fn get_position(&self) -> Position {
        self.2
    }
    fn get_size(&self) -> Size {
        self.1
    }
    fn set_position(&mut self, position: Position) {
        self.2 = position;
    }
    fn set_size(&mut self, size: Size) {
        self.1 = size;
    }
}

#[test]
fn bounds() {
    let rect = Rect::new(Point::new(0, 1), Size::new(20, 30));
    let pos = Position::new(12, 34);
    let size = Size::new(320, 240);

    let s1 = TestStruct1 { val: 42, my_rect: rect, stuff: "foo".into() };
    assert_eq!(s1.val, 42);
    assert_eq!(s1.stuff, "foo");
    assert_eq!(s1.get_position(), rect.pos);
    assert_eq!(s1.get_size(), rect.size);
    assert_eq!(s1.get_bounds(), rect);

    let s2 = TestStruct2 { val: 33, pos, size };
    assert_eq!(s2.val, 33);
    assert_eq!(s2.get_position(), pos);
    assert_eq!(s2.get_size(), size);
    assert_eq!(s2.get_bounds(), Rect::new(pos, size));

    let t1 = TestTuple1(42, rect, "foo".into());
    assert_eq!(t1.0, 42);
    assert_eq!(t1.2, "foo");
    assert_eq!(t1.get_position(), rect.pos);
    assert_eq!(t1.get_size(), rect.size);
    assert_eq!(t1.get_bounds(), rect);

    let mut t2 = TestTuple2(33, size, pos);
    assert_eq!(t2.0, 33);
    assert_eq!(t2.get_position(), pos);
    assert_eq!(t2.get_size(), size);
    assert_eq!(t2.get_bounds(), Rect::new(pos, size));
    t2.set_position(Point::new(1, 1));
    t2.set_size(Size::new(2, 2));
    assert_eq!(t2.get_bounds(), Rect::new(Point::new(1, 1), Size::new(2, 2)));

    let mut r = rect;
    r.set_position(pos);
    r.set_size(size);
    assert_eq!(r.get_bounds(), Rect::new(pos, size));
}

struct Tagged {
    val: i32,
    my_id: WidgetId,
    stuff: String,
}

impl ObjectId for Tagged {
    fn id_view(&self) -> WidgetId {
        self.my_id
    }
    fn get_id(&self) -> WidgetId {
        self.my_id
    }
}

#[test]
fn object_id() {
    let mut ids = IdSource::new();
    let s = Tagged { val: 42, my_id: ids.next_id().unwrap(), stuff: "foo".into() };
    assert_eq!(s.val, 42);
    assert_eq!(s.stuff, "foo");
    assert_eq!(s.get_id(), s.my_id);
    assert_eq!(s.my_id.as_u64(), 1);

    let a = ids.next_id().unwrap();
    let b = ids.next_id().unwrap();
    assert_ne!(a, b);
    assert_ne!(a, s.my_id);
    assert_eq!(a.as_u64(), 2);
    assert_eq!(b.as_u64(), 3);
}

#[test]
fn expand_to_origin_reaches_far_corner() {
    assert_eq!(rect(20, 10, 320, 240).expand_to_origin(), rect(0, 0, 340, 250));
    assert_eq!(rect(-50, -10, 20, 5).expand_to_origin(), rect(0, 0, 0, 0));
}

#[test]
fn clip_inside_extreme_coordinates() {
    let huge = rect(i32::MIN, i32::MIN, u32::MAX, u32::MAX);
    assert_eq!(huge.end_x(), i32::MAX as i64);
    let small = rect(0, 0, 10, 10);
    assert_eq!(small.clip_inside(huge), Some(small));
    assert_eq!(huge.clip_inside(small), Some(small));
    let corner = rect(i32::MAX - 4, i32::MAX - 4, 4, 4);
    assert_eq!(corner.clip_inside(huge), Some(corner));
    assert_eq!(rect(i32::MAX - 4, 0, u32::MAX, 1).clip_inside(huge), Some(rect(i32::MAX - 4, 0, 4, 1)));
}
