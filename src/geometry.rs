//! Points, sizes and rectangles, with clipping.
use vstd::prelude::*;

verus! {

/// Defines a position in 2D cartesian coordinates.
#[derive(Debug, Clone, Copy, PartialEq, Eq, Structural, Hash, Default)]
pub struct Point<T> {
    /// Distance from the left edge.
    pub x: T,
    /// Distance from the top edge.
    pub y: T,
}

/// Position of an object, in pixels.
pub type Position = Point<i32>;

impl<T> Point<T> {
    pub fn new(x: T, y: T) -> (r: Self)
        ensures
            r.x == x,
            r.y == y,
    {
        Point { x, y }
    }

    pub fn with_x(self, x: T) -> (r: Self)
        ensures
            r.x == x,
            r.y == self.y,
    {
        Point { x, y: self.y }
    }

    pub fn with_y(self, y: T) -> (r: Self)
        ensures
            r.x == self.x,
            r.y == y,
    {
        Point { x: self.x, y }
    }

    /// Applies `f` to each component.
    pub fn map<F, R>(self, f: F) -> (r: Point<R>)
        where
            F: Fn(T) -> R,
        requires
            f.requires((self.x,)),
            f.requires((self.y,)),
        ensures
            f.ensures((self.x,), r.x),
            f.ensures((self.y,), r.y),
    {
        let x = f(self.x);
        let y = f(self.y);
        Point { x, y }
    }

    /// Combines two points component-wise with `f`.
    pub fn map2<F, U, R>(self, other: Point<U>, f: F) -> (r: Point<R>)
        where
            F: Fn(T, U) -> R,
        requires
            f.requires((self.x, other.x)),
            f.requires((self.y, other.y)),
        ensures
            f.ensures((self.x, other.x), r.x),
            f.ensures((self.y, other.y), r.y),
    {
        let x = f(self.x, other.x);
        let y = f(self.y, other.y);
        Point { x, y }
    }
}

impl<T: Copy> Point<T> {
    /// Replaces each component by the result of `f` on it.
    pub fn map_mut<F>(&mut self, f: F)
        where
            F: Fn(T) -> T,
        requires
            f.requires((old(self).x,)),
            f.requires((old(self).y,)),
        ensures
            f.ensures((old(self).x,), final(self).x),
            f.ensures((old(self).y,), final(self).y),
    {
        self.x = f(self.x);
        self.y = f(self.y);
    }

    /// Replaces each component by the result of `f` on it and the matching
    /// component of `other`.
    pub fn map2_mut<F, U>(&mut self, other: Point<U>, f: F)
        where
            F: Fn(T, U) -> T,
        requires
            f.requires((old(self).x, other.x)),
            f.requires((old(self).y, other.y)),
        ensures
            f.ensures((old(self).x, other.x), final(self).x),
            f.ensures((old(self).y, other.y), final(self).y),
    {
        self.x = f(self.x, other.x);
        self.y = f(self.y, other.y);
    }
}

impl Point<i32> {
    /// Moves the point by `(dx, dy)`.
    pub fn offset(self, dx: i32, dy: i32) -> (r: Self)
        requires
            i32::MIN <= self.x + dx <= i32::MAX,
            i32::MIN <= self.y + dy <= i32::MAX,
        ensures
            r.x == self.x + dx,
            r.y == self.y + dy,
    {
        Point { x: self.x + dx, y: self.y + dy }
    }

    /// Converts to a size, with negative components taken as zero.
    pub fn as_size(self) -> (r: Size)
        ensures
            r.w == if self.x < 0 { 0 } else { self.x as int },
            r.h == if self.y < 0 { 0 } else { self.y as int },
    {
        let w: u32 = if self.x < 0 { 0 } else { self.x as u32 };
        let h: u32 = if self.y < 0 { 0 } else { self.y as u32 };
        Size { w, h }
    }

    /// Checks if this point lies within `rect`, edges included.
    pub fn inside(self, rect: Rect) -> (r: bool)
        ensures
            r == point_in_rect(self, rect),
    {
        let x = self.x as i64;
        let y = self.y as i64;
        x >= rect.pos.x as i64 && x <= rect.pos.x as i64 + rect.size.w as i64 && y >= rect.pos.y as i64
            && y <= rect.pos.y as i64 + rect.size.h as i64
    }
}

/// Width and height of an object, in pixels.
#[derive(Debug, Clone, Copy, PartialEq, Eq, Structural, Hash, Default)]
pub struct Size {
    pub w: u32,
    pub h: u32,
}

impl Size {
    pub fn new(w: u32, h: u32) -> (r: Self)
        ensures
            r.w == w,
            r.h == h,
    {
        Size { w, h }
    }

    pub fn zero() -> (r: Self)
        ensures
            r.w == 0,
            r.h == 0,
    {
        Size { w: 0, h: 0 }
    }

    /// Checks if either dimension is zero.
    pub fn is_zero_area(self) -> (r: bool)
        ensures
            r == (self.w == 0 || self.h == 0),
    {
        self.w == 0 || self.h == 0
    }

    /// This size, or `other` if this one has zero area.
    pub open spec fn nonzero_or_spec(self, other: Size) -> Size {
        if self.w == 0 || self.h == 0 {
            other
        } else {
            self
        }
    }

    /// Returns this size, or `other` if this one has zero area.
    pub fn nonzero_or(self, other: Size) -> (r: Size)
        ensures
            r == self.nonzero_or_spec(other),
    {
        if self.is_zero_area() {
            other
        } else {
            self
        }
    }

    /// Number of pixels covered.
    pub fn area(self) -> (r: u64)
        ensures
            r == self.w * self.h,
    {
        proof {
            assert(self.w * self.h <= u32::MAX * u32::MAX) by (nonlinear_arith)
                requires
                    self.w <= u32::MAX,
                    self.h <= u32::MAX,
            ;
        }
        self.w as u64 * self.h as u64
    }
}

/// A rectangle, as its top-left corner and its size.
#[derive(Debug, Clone, Copy, PartialEq, Eq, Structural, Hash, Default)]
pub struct Rect {
    pub pos: Position,
    pub size: Size,
}

/// Right edge of a rectangle (one past its last column).
pub open spec fn end_x(r: Rect) -> int {
    r.pos.x + r.size.w
}

/// Bottom edge of a rectangle (one past its last row).
pub open spec fn end_y(r: Rect) -> int {
    r.pos.y + r.size.h
}

/// The edges of the rectangle are representable as `i32` coordinates.
pub open spec fn rect_wf(r: Rect) -> bool {
    end_x(r) <= i32::MAX && end_y(r) <= i32::MAX
}

pub open spec fn point_in_rect(p: Position, r: Rect) -> bool {
    r.pos.x <= p.x <= end_x(r) && r.pos.y <= p.y <= end_y(r)
}

/// `a` covers no pixel outside `b`.
pub open spec fn rect_within(a: Rect, b: Rect) -> bool {
    b.pos.x <= a.pos.x && end_x(a) <= end_x(b) && b.pos.y <= a.pos.y && end_y(a) <= end_y(b)
}

pub open spec fn max_int(a: int, b: int) -> int {
    if a >= b { a } else { b }
}

pub open spec fn min_int(a: int, b: int) -> int {
    if a <= b { a } else { b }
}

/// Intersection of `a`, moved by `(dx, dy)`, with `b`; `None` when it covers
/// no pixel.
pub open spec fn clip_at(a: Rect, dx: int, dy: int, b: Rect) -> Option<Rect> {
    let x0 = max_int(a.pos.x + dx, b.pos.x as int);
    let x1 = min_int(end_x(a) + dx, end_x(b));
    let y0 = max_int(a.pos.y + dy, b.pos.y as int);
    let y1 = min_int(end_y(a) + dy, end_y(b));
    if x0 < x1 && y0 < y1 {
        Some(
            Rect {
                pos: Point { x: x0 as i32, y: y0 as i32 },
                size: Size { w: (x1 - x0) as u32, h: (y1 - y0) as u32 },
            },
        )
    } else {
        None
    }
}

/// Intersection of `a` with `b`; `None` when it covers no pixel.
pub open spec fn clip_spec(a: Rect, b: Rect) -> Option<Rect> {
    clip_at(a, 0, 0, b)
}

fn max_i64(a: i64, b: i64) -> (r: i64)
    ensures
        r == max_int(a as int, b as int),
{
    if a >= b {
        a
    } else {
        b
    }
}

fn min_i64(a: i64, b: i64) -> (r: i64)
    ensures
        r == min_int(a as int, b as int),
{
    if a <= b {
        a
    } else {
        b
    }
}

impl Rect {
    pub fn new(pos: Position, size: Size) -> (r: Self)
        ensures
            r.pos == pos,
            r.size == size,
    {
        Rect { pos, size }
    }

    /// A rectangle at the origin with the given size.
    pub fn from_size(size: Size) -> (r: Self)
        ensures
            r.pos == (Point { x: 0i32, y: 0i32 }),
            r.size == size,
    {
        Rect { pos: Point { x: 0, y: 0 }, size }
    }

    pub fn x(&self) -> (r: i32)
        ensures
            r == self.pos.x,
    {
        self.pos.x
    }

    pub fn y(&self) -> (r: i32)
        ensures
            r == self.pos.y,
    {
        self.pos.y
    }

    pub fn w(&self) -> (r: u32)
        ensures
            r == self.size.w,
    {
        self.size.w
    }

    pub fn h(&self) -> (r: u32)
        ensures
            r == self.size.h,
    {
        self.size.h
    }

    /// Right edge.
    pub fn end_x(&self) -> (r: i64)
        ensures
            r == end_x(*self),
    {
        self.pos.x as i64 + self.size.w as i64
    }

    /// Bottom edge.
    pub fn end_y(&self) -> (r: i64)
        ensures
            r == end_y(*self),
    {
        self.pos.y as i64 + self.size.h as i64
    }

    /// Moves the rectangle by `pos`.
    pub fn offset(self, pos: Position) -> (r: Self)
        requires
            i32::MIN <= self.pos.x + pos.x <= i32::MAX,
            i32::MIN <= self.pos.y + pos.y <= i32::MAX,
        ensures
            r.pos.x == self.pos.x + pos.x,
            r.pos.y == self.pos.y + pos.y,
            r.size == self.size,
    {
        Rect { pos: self.pos.offset(pos.x, pos.y), size: self.size }
    }

    /// Intersection of this rectangle, moved by `delta`, with `other`.
    ///
    /// Returns `None` when the intersection is empty along either axis.
    pub fn clip_offset_inside(self, delta: Position, other: Rect) -> (r: Option<Rect>)
        requires
            rect_wf(other),
        ensures
            r == clip_at(self, delta.x as int, delta.y as int, other),
            r matches Some(c) ==> rect_wf(c) && rect_within(c, other),
    {
        let x0 = max_i64(self.pos.x as i64 + delta.x as i64, other.pos.x as i64);
        let x1 = min_i64(self.end_x() + delta.x as i64, other.end_x());
        let y0 = max_i64(self.pos.y as i64 + delta.y as i64, other.pos.y as i64);
        let y1 = min_i64(self.end_y() + delta.y as i64, other.end_y());
        if x0 < x1 && y0 < y1 {
            Some(
                Rect {
                    pos: Point { x: x0 as i32, y: y0 as i32 },
                    size: Size { w: (x1 - x0) as u32, h: (y1 - y0) as u32 },
                },
            )
        } else {
            None
        }
    }

    /// Intersection of this rectangle with `other`.
    ///
    /// Returns `None` when the intersection is empty along either axis.
    pub fn clip_inside(self, other: Rect) -> (r: Option<Rect>)
        ensures
            r == clip_spec(self, other),
            r matches Some(c) ==> rect_within(c, other) && rect_within(c, self),
            r matches Some(c) ==> (rect_wf(other) ==> rect_wf(c)),
    {
        let x0 = max_i64(self.pos.x as i64, other.pos.x as i64);
        let x1 = min_i64(self.end_x(), other.end_x());
        let y0 = max_i64(self.pos.y as i64, other.pos.y as i64);
        let y1 = min_i64(self.end_y(), other.end_y());
        if x0 < x1 && y0 < y1 {
            Some(
                Rect {
                    pos: Point { x: x0 as i32, y: y0 as i32 },
                    size: Size { w: (x1 - x0) as u32, h: (y1 - y0) as u32 },
                },
            )
        } else {
            None
        }
    }

    /// Checks if `p` lies within this rectangle, edges included.
    pub fn contains(&self, p: Position) -> (r: bool)
        ensures
            r == point_in_rect(p, *self),
    {
        p.inside(*self)
    }
}

/// `v` limited to the range of `u32`.
pub open spec fn clamp_u32(v: int) -> u32 {
    if v < 0 {
        0
    } else if v > u32::MAX {
        u32::MAX
    } else {
        v as u32
    }
}

/// The rectangle from the origin to the far corner of `r`.
pub open spec fn expanded_to_origin(r: Rect) -> Rect {
    Rect { pos: Point { x: 0, y: 0 }, size: Size { w: clamp_u32(end_x(r)), h: clamp_u32(end_y(r)) } }
}

fn clamp_u32_of(v: i64) -> (r: u32)
    ensures
        r == clamp_u32(v as int),
{
    if v < 0 {
        0
    } else if v > u32::MAX as i64 {
        u32::MAX
    } else {
        v as u32
    }
}

impl Rect {
    /// The rectangle from the origin to this rectangle's far corner.
    pub fn expand_to_origin(self) -> (r: Rect)
        ensures
            r == expanded_to_origin(self),
    {
        Rect {
            pos: Point { x: 0, y: 0 },
            size: Size { w: clamp_u32_of(self.end_x()), h: clamp_u32_of(self.end_y()) },
        }
    }
}

/// Visible area of a window of the given size: at the origin, with each side
/// limited to what `i32` coordinates can reach.
pub open spec fn window_rect(size: Size) -> Rect {
    Rect {
        pos: Point { x: 0, y: 0 },
        size: Size {
            w: if size.w > i32::MAX { i32::MAX as u32 } else { size.w },
            h: if size.h > i32::MAX { i32::MAX as u32 } else { size.h },
        },
    }
}

impl Rect {
    /// Visible area of a window of the given size.
    pub fn for_window(size: Size) -> (r: Rect)
        ensures
            r == window_rect(size),
            rect_wf(r),
    {
        let w: u32 = if size.w > i32::MAX as u32 { i32::MAX as u32 } else { size.w };
        let h: u32 = if size.h > i32::MAX as u32 { i32::MAX as u32 } else { size.h };
        Rect { pos: Point { x: 0, y: 0 }, size: Size { w, h } }
    }
}

/// Clipping never yields a rectangle that sticks out of either operand, and
/// yields nothing exactly when the operands share no pixel.
pub proof fn lemma_clip_inside(a: Rect, b: Rect)
    ensures
        clip_spec(a, b) is None <==> (max_int(a.pos.x as int, b.pos.x as int) >= min_int(end_x(a), end_x(b))
            || max_int(a.pos.y as int, b.pos.y as int) >= min_int(end_y(a), end_y(b))),
        clip_spec(a, b) matches Some(c) ==> rect_within(c, a) && rect_within(c, b) && c.size.w > 0
            && c.size.h > 0,
{
}

/// Defines the drawing bounds of an object.
pub trait Bounds {
    /// The object's bounding rectangle.
    spec fn bounds_view(&self) -> Rect;

    /// Gets the object position.
    fn get_position(&self) -> (r: Position)
        ensures
            r == self.bounds_view().pos,
    ;

    /// Gets the object size.
    fn get_size(&self) -> (r: Size)
        ensures
            r == self.bounds_view().size,
    ;

    /// Sets the object position.
    fn set_position(&mut self, position: Position)
        ensures
            final(self).bounds_view() == (Rect { pos: position, size: old(self).bounds_view().size }),
    ;

    /// Sets the object size.
    fn set_size(&mut self, size: Size)
        ensures
            final(self).bounds_view() == (Rect { pos: old(self).bounds_view().pos, size }),
    ;

    /// Gets bounds as a Rect.
    fn get_bounds(&self) -> (r: Rect)
        ensures
            r == self.bounds_view(),
    {
        Rect { pos: self.get_position(), size: self.get_size() }
    }
}

impl Bounds for Rect {
    open spec fn bounds_view(&self) -> Rect {
        *self
    }

    fn get_position(&self) -> (r: Position) {
        self.pos
    }

    fn get_size(&self) -> (r: Size) {
        self.size
    }

    fn set_position(&mut self, position: Position) {
        self.pos = position;
    }

    fn set_size(&mut self, size: Size) {
        self.size = size;
    }

    fn get_bounds(&self) -> (r: Rect) {
        *self
    }
}

} // verus!
