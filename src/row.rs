//! A horizontal row of widgets, laid out from a starting point leftwards or rightwards.
use vstd::prelude::*;

verus! {

/// A point on the screen.
#[derive(Debug, Clone, Copy, PartialEq, Eq, Structural)]
pub struct Point {
    pub x: i32,
    pub y: i32,
}

/// How a row lines up its children from its point.
#[derive(Debug, Clone, Copy, PartialEq, Eq, Structural)]
pub enum Alignment {
    /// The first child starts at the point; the others follow to the right.
    Left,
    Center,
    /// The first child stands at the point; the others follow to the left.
    Right,
}

/// Something a row can place: it has a width and accepts a position.
pub trait Widget: Sized {
    spec fn spec_width(&self) -> u32;

    spec fn spec_position(&self) -> Point;

    fn width(&self) -> (r: u32)
        ensures
            r == self.spec_width();

    fn set_position(&mut self, p: Point)
        ensures
            final(self).spec_position() == p,
            final(self).spec_width() == old(self).spec_width();
}

/// A widget of fixed width that only holds its position.
#[derive(Debug, Clone, Copy, PartialEq, Eq, Structural)]
pub struct Block {
    pub position: Point,
    pub w: u32,
}

impl Widget for Block {
    open spec fn spec_width(&self) -> u32 {
        self.w
    }

    open spec fn spec_position(&self) -> Point {
        self.position
    }

    fn width(&self) -> (r: u32) {
        self.w
    }

    fn set_position(&mut self, p: Point) {
        self.position = p;
    }
}

/// The x coordinate of child `i` when children of `ws`'s widths are laid out left to
/// right from `start`, `margin` apart.
pub open spec fn left_x(start: int, ws: Seq<u32>, margin: int, i: int) -> int
    decreases i,
{
    if i <= 0 {
        start
    } else {
        left_x(start, ws, margin, i - 1) + ws[i - 1] + margin
    }
}

/// The x coordinate of child `i` when children are laid out right to left from `start`:
/// each next child stands the previous one's width and the margin further left.
pub open spec fn right_x(start: int, ws: Seq<u32>, margin: int, i: int) -> int
    decreases i,
{
    if i <= 0 {
        start
    } else {
        right_x(start, ws, margin, i - 1) - ws[i - 1] - margin
    }
}

/// The widths of `cs`.
pub open spec fn widths<T: Widget>(cs: Seq<T>) -> Seq<u32> {
    cs.map_values(|c: T| c.spec_width())
}

/// Whether `x` fits in an `i32`.
pub open spec fn fits_i32(x: int) -> bool {
    i32::MIN <= x <= i32::MAX
}

/// A horizontal row of widgets.
#[derive(Debug)]
pub struct Row<T> {
    point: Point,
    children: Vec<T>,
    alignment: Alignment,
    margin: i32,
    dirty: bool,
    has_layout: bool,
}

impl<T> View for Row<T> {
    type V = Seq<T>;

    closed spec fn view(&self) -> Seq<T> {
        self.children@
    }
}

impl<T> Row<T> {
    pub closed spec fn spec_point(&self) -> Point {
        self.point
    }

    pub closed spec fn spec_alignment(&self) -> Alignment {
        self.alignment
    }

    pub closed spec fn spec_margin(&self) -> i32 {
        self.margin
    }

    /// Whether the row must be drawn again.
    pub closed spec fn spec_dirty(&self) -> bool {
        self.dirty
    }

    /// Whether the children's positions are up to date.
    pub closed spec fn spec_has_layout(&self) -> bool {
        self.has_layout
    }

    /// A row at `point` holding `children`, to be laid out and drawn.
    pub fn new(point: Point, children: Vec<T>, alignment: Alignment, margin: i32) -> (r: Row<T>)
        ensures
            r@ == children@,
            r.spec_point() == point,
            r.spec_alignment() == alignment,
            r.spec_margin() == margin,
            r.spec_dirty(),
            !r.spec_has_layout(),
    {
        Row { point, children, alignment, margin, dirty: true, has_layout: false }
    }

    /// Number of children.
    pub fn len(&self) -> (r: usize)
        ensures
            r == self@.len(),
    {
        self.children.len()
    }

    /// Whether the row has no child.
    pub fn is_empty(&self) -> (r: bool)
        ensures
            r == (self@.len() == 0),
    {
        self.children.len() == 0
    }

    /// The child at `index`, if any.
    pub fn get(&self, index: usize) -> (r: Option<&T>)
        ensures
            index < self@.len() ==> r == Some(&self@[index as int]),
            index >= self@.len() ==> r is None,
    {
        if index < self.children.len() {
            Some(&self.children[index])
        } else {
            None
        }
    }

    /// The child at `index`, to change in place, if any.
    pub fn get_mut(&mut self, index: usize) -> (r: Option<&mut T>)
        ensures
            index >= old(self)@.len() ==> r is None && *final(self) == *old(self),
            index < old(self)@.len() ==> (r matches Some(c) && *c == old(self)@[index as int]
                && final(self)@ == old(self)@.update(index as int, *final(c))),
    {
        if index < self.children.len() {
            Some(&mut self.children[index])
        } else {
            None
        }
    }

    /// Appends `view`; the row must be laid out and drawn again.
    pub fn push(&mut self, view: T)
        ensures
            final(self)@ == old(self)@.push(view),
            final(self).spec_point() == old(self).spec_point(),
            final(self).spec_alignment() == old(self).spec_alignment(),
            final(self).spec_margin() == old(self).spec_margin(),
            final(self).spec_dirty(),
            !final(self).spec_has_layout(),
    {
        self.children.push(view);
        self.dirty = true;
        self.has_layout = false;
    }

    /// Removes and returns the last child, if any.
    pub fn pop(&mut self) -> (r: Option<T>)
        ensures
            old(self)@.len() == 0 ==> r is None && final(self)@ == old(self)@,
            old(self)@.len() > 0 ==> r == Some(old(self)@.last()) && final(self)@ == old(self)@.drop_last(),
            final(self).spec_point() == old(self).spec_point(),
            final(self).spec_alignment() == old(self).spec_alignment(),
            final(self).spec_margin() == old(self).spec_margin(),
            final(self).spec_dirty(),
            !final(self).spec_has_layout(),
    {
        let view = self.children.pop();
        self.dirty = true;
        self.has_layout = false;
        view
    }

    /// Removes and returns the child at `index`; `None`, and no change, if there is none.
    pub fn remove(&mut self, index: usize) -> (r: Option<T>)
        ensures
            index >= old(self)@.len() ==> r is None && *final(self) == *old(self),
            index < old(self)@.len() ==> r == Some(old(self)@[index as int])
                && final(self)@ == old(self)@.remove(index as int)
                && final(self).spec_dirty() && !final(self).spec_has_layout(),
            final(self).spec_point() == old(self).spec_point(),
            final(self).spec_alignment() == old(self).spec_alignment(),
            final(self).spec_margin() == old(self).spec_margin(),
    {
        if index >= self.children.len() {
            return None;
        }
        let view = self.children.remove(index);
        self.dirty = true;
        self.has_layout = false;
        Some(view)
    }

    /// Moves the row to `point`; it must be laid out and drawn again.
    pub fn set_position(&mut self, point: Point)
        ensures
            final(self)@ == old(self)@,
            final(self).spec_point() == point,
            final(self).spec_alignment() == old(self).spec_alignment(),
            final(self).spec_margin() == old(self).spec_margin(),
            final(self).spec_dirty(),
            !final(self).spec_has_layout(),
    {
        self.point = point;
        self.has_layout = false;
        self.dirty = true;
    }

    /// Inserts `view` at `index`, shifting later children right.
    pub fn insert(&mut self, index: usize, view: T)
        requires
            index <= old(self)@.len(),
        ensures
            final(self)@ == old(self)@.insert(index as int, view),
            final(self).spec_point() == old(self).spec_point(),
            final(self).spec_alignment() == old(self).spec_alignment(),
            final(self).spec_margin() == old(self).spec_margin(),
            final(self).spec_dirty(),
            !final(self).spec_has_layout(),
    {
        self.children.insert(index, view);
        self.dirty = true;
        self.has_layout = false;
    }
}

impl<T: Widget> Row<T> {
    /// Every child `i` of `self` stands at `(xs(i), point.y)` with its width unchanged
    /// from `before`.
    pub open spec fn placed(&self, before: Seq<T>, right: bool) -> bool {
        let ws = widths(before);
        let p = self.spec_point();
        &&& self@.len() == before.len()
        &&& forall|i: int| 0 <= i < before.len() ==> (#[trigger] self@[i]).spec_width() == before[i].spec_width()
        &&& forall|i: int| 0 <= i < before.len() ==> (#[trigger] self@[i]).spec_position() == (Point {
            x: (if right {
                right_x(p.x as int, ws, self.spec_margin() as int, i)
            } else {
                left_x(p.x as int, ws, self.spec_margin() as int, i)
            }) as i32,
            y: p.y,
        })
    }

    /// Whether every position of a layout fits the screen's coordinate type.
    pub open spec fn layout_fits(&self) -> bool {
        let ws = widths(self@);
        let p = self.spec_point();
        let m = self.spec_margin() as int;
        &&& self.spec_alignment() == Alignment::Right ==> forall|i: int|
            0 <= i < self@.len() ==> fits_i32(#[trigger] right_x(p.x as int, ws, m, i))
        &&& self.spec_alignment() != Alignment::Right ==> forall|i: int|
            0 <= i < self@.len() ==> fits_i32(#[trigger] left_x(p.x as int, ws, m, i))
    }

    /// Places the children by the row's alignment and marks the row for drawing.
    pub fn layout(&mut self)
        requires
            old(self).spec_alignment() != Alignment::Center,
            old(self).layout_fits(),
        ensures
            final(self).placed(old(self)@, old(self).spec_alignment() == Alignment::Right),
            final(self).spec_point() == old(self).spec_point(),
            final(self).spec_alignment() == old(self).spec_alignment(),
            final(self).spec_margin() == old(self).spec_margin(),
            final(self).spec_has_layout(),
            final(self).spec_dirty(),
    {
        match self.alignment {
            Alignment::Right => self.layout_right(),
            _ => self.layout_left(),
        }
        self.has_layout = true;
        self.dirty = true;
    }

    /// Places the children left to right from the row's point.
    fn layout_left(&mut self)
        requires
            old(self).spec_alignment() != Alignment::Right,
            old(self).layout_fits(),
        ensures
            final(self).placed(old(self)@, false),
            final(self).spec_point() == old(self).spec_point(),
            final(self).spec_alignment() == old(self).spec_alignment(),
            final(self).spec_margin() == old(self).spec_margin(),
            final(self).spec_has_layout() == old(self).spec_has_layout(),
            final(self).spec_dirty() == old(self).spec_dirty(),
    {
        let ghost before = self.children@;
        let ghost ws = widths(before);
        let mut x: i64 = self.point.x as i64;
        let mut i: usize = 0;
        while i < self.children.len()
            invariant
                0 <= i <= self.children@.len(),
                self.children@.len() == before.len(),
                self.point == old(self).point,
                self.margin == old(self).margin,
                self.alignment == old(self).alignment,
                self.has_layout == old(self).has_layout,
                self.dirty == old(self).dirty,
                before == old(self)@,
                ws == widths(before),
                old(self).layout_fits(),
                old(self).spec_alignment() != Alignment::Right,
                x as int == left_x(self.point.x as int, ws, self.margin as int, i as int),
                forall|j: int| 0 <= j < before.len() ==> (#[trigger] self.children@[j]).spec_width() == before[j].spec_width(),
                forall|j: int| i <= j < before.len() ==> #[trigger] self.children@[j] == before[j],
                forall|j: int| 0 <= j < i ==> (#[trigger] self.children@[j]).spec_position() == (Point {
                    x: left_x(self.point.x as int, ws, self.margin as int, j) as i32,
                    y: self.point.y,
                }),
            decreases before.len() - i,
        {
            assert(old(self)@ == before && old(self).spec_point() == self.point);
            assert(old(self).spec_margin() == self.margin && widths(old(self)@) == ws);
            assert(fits_i32(left_x(self.point.x as int, ws, self.margin as int, i as int)));
            let w = self.children[i].width();
            assert(ws[i as int] == w);
            let p = Point { x: x as i32, y: self.point.y };
            self.children[i].set_position(p);
            x = x + w as i64 + self.margin as i64;
            i += 1;
        }
    }

    /// Places the children right to left from the row's point.
    fn layout_right(&mut self)
        requires
            old(self).spec_alignment() == Alignment::Right,
            old(self).layout_fits(),
        ensures
            final(self).placed(old(self)@, true),
            final(self).spec_point() == old(self).spec_point(),
            final(self).spec_alignment() == old(self).spec_alignment(),
            final(self).spec_margin() == old(self).spec_margin(),
            final(self).spec_has_layout() == old(self).spec_has_layout(),
            final(self).spec_dirty() == old(self).spec_dirty(),
    {
        let ghost before = self.children@;
        let ghost ws = widths(before);
        let mut x: i64 = self.point.x as i64;
        let mut i: usize = 0;
        while i < self.children.len()
            invariant
                0 <= i <= self.children@.len(),
                self.children@.len() == before.len(),
                self.point == old(self).point,
                self.margin == old(self).margin,
                self.alignment == old(self).alignment,
                self.has_layout == old(self).has_layout,
                self.dirty == old(self).dirty,
                before == old(self)@,
                ws == widths(before),
                old(self).layout_fits(),
                old(self).spec_alignment() == Alignment::Right,
                x as int == right_x(self.point.x as int, ws, self.margin as int, i as int),
                forall|j: int| 0 <= j < before.len() ==> (#[trigger] self.children@[j]).spec_width() == before[j].spec_width(),
                forall|j: int| i <= j < before.len() ==> #[trigger] self.children@[j] == before[j],
                forall|j: int| 0 <= j < i ==> (#[trigger] self.children@[j]).spec_position() == (Point {
                    x: right_x(self.point.x as int, ws, self.margin as int, j) as i32,
                    y: self.point.y,
                }),
            decreases before.len() - i,
        {
            assert(old(self)@ == before && old(self).spec_point() == self.point);
            assert(old(self).spec_margin() == self.margin && widths(old(self)@) == ws);
            assert(fits_i32(right_x(self.point.x as int, ws, self.margin as int, i as int)));
            let w = self.children[i].width();
            assert(ws[i as int] == w);
            let p = Point { x: x as i32, y: self.point.y };
            self.children[i].set_position(p);
            x = x - w as i64 - self.margin as i64;
            i += 1;
        }
    }
}

} // verus!
