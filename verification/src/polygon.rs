//! Integer coordinate polygons.
use vstd::prelude::*;

verus! {

/// A point with integer coordinates.
#[derive(Clone, Copy, Debug, PartialEq, Eq, Structural)]
pub struct Point {
    pub x: i64,
    pub y: i64,
}

/// An axis-aligned rectangle, given by its four sides.
#[derive(Clone, Copy, Debug, PartialEq, Eq, Structural)]
pub struct Rect {
    pub left: i64,
    pub bot: i64,
    pub right: i64,
    pub top: i64,
}

/// A polygon, given by its vertices.
#[derive(Debug)]
pub struct Polygon {
    vertices: Vec<Point>,
}

/// Whether `value` is the smallest x coordinate among `points`.
pub open spec fn is_min_x(points: Seq<Point>, value: int) -> bool {
    &&& exists|i: int| 0 <= i < points.len() && points[i].x == value
    &&& forall|i: int| 0 <= i < points.len() ==> value <= points[i].x
}

/// Whether `value` is the largest x coordinate among `points`.
pub open spec fn is_max_x(points: Seq<Point>, value: int) -> bool {
    &&& exists|i: int| 0 <= i < points.len() && points[i].x == value
    &&& forall|i: int| 0 <= i < points.len() ==> points[i].x <= value
}

/// Whether `value` is the smallest y coordinate among `points`.
pub open spec fn is_min_y(points: Seq<Point>, value: int) -> bool {
    &&& exists|i: int| 0 <= i < points.len() && points[i].y == value
    &&& forall|i: int| 0 <= i < points.len() ==> value <= points[i].y
}

/// Whether `value` is the largest y coordinate among `points`.
pub open spec fn is_max_y(points: Seq<Point>, value: int) -> bool {
    &&& exists|i: int| 0 <= i < points.len() && points[i].y == value
    &&& forall|i: int| 0 <= i < points.len() ==> points[i].y <= value
}

/// Whether every point of `points` can be moved by `by` without leaving the
/// range of the coordinates.
pub open spec fn can_translate(points: Seq<Point>, by: Point) -> bool {
    forall|i: int|
        0 <= i < points.len() ==> i64::MIN <= #[trigger] points[i].x + by.x <= i64::MAX && i64::MIN
            <= points[i].y + by.y <= i64::MAX
}

impl View for Polygon {
    type V = Seq<Point>;

    closed spec fn view(&self) -> Seq<Point> {
        self.vertices@
    }
}

impl Polygon {
    /// Creates a polygon with given vertices.
    pub fn from_verts(vec: Vec<Point>) -> (polygon: Self)
        ensures
            polygon@ == vec@,
    {
        Self { vertices: vec }
    }

    /// The smallest y coordinate of the vertices.
    pub fn bot(&self) -> (value: i64)
        requires
            self@.len() > 0,
        ensures
            is_min_y(self@, value as int),
    {
        let mut best = self.vertices[0].y;
        let mut i: usize = 1;
        while i < self.vertices.len()
            invariant
                1 <= i <= self.vertices.len(),
                exists|j: int| 0 <= j < i && self@[j].y == best,
                forall|j: int| 0 <= j < i ==> best <= self@[j].y,
            decreases self.vertices.len() - i,
        {
            if self.vertices[i].y < best {
                best = self.vertices[i].y;
            }
            i += 1;
        }
        best
    }

    /// The largest y coordinate of the vertices.
    pub fn top(&self) -> (value: i64)
        requires
            self@.len() > 0,
        ensures
            is_max_y(self@, value as int),
    {
        let mut best = self.vertices[0].y;
        let mut i: usize = 1;
        while i < self.vertices.len()
            invariant
                1 <= i <= self.vertices.len(),
                exists|j: int| 0 <= j < i && self@[j].y == best,
                forall|j: int| 0 <= j < i ==> self@[j].y <= best,
            decreases self.vertices.len() - i,
        {
            if self.vertices[i].y > best {
                best = self.vertices[i].y;
            }
            i += 1;
        }
        best
    }

    /// The smallest x coordinate of the vertices.
    pub fn left(&self) -> (value: i64)
        requires
            self@.len() > 0,
        ensures
            is_min_x(self@, value as int),
    {
        let mut best = self.vertices[0].x;
        let mut i: usize = 1;
        while i < self.vertices.len()
            invariant
                1 <= i <= self.vertices.len(),
                exists|j: int| 0 <= j < i && self@[j].x == best,
                forall|j: int| 0 <= j < i ==> best <= self@[j].x,
            decreases self.vertices.len() - i,
        {
            if self.vertices[i].x < best {
                best = self.vertices[i].x;
            }
            i += 1;
        }
        best
    }

    /// The largest x coordinate of the vertices.
    pub fn right(&self) -> (value: i64)
        requires
            self@.len() > 0,
        ensures
            is_max_x(self@, value as int),
    {
        let mut best = self.vertices[0].x;
        let mut i: usize = 1;
        while i < self.vertices.len()
            invariant
                1 <= i <= self.vertices.len(),
                exists|j: int| 0 <= j < i && self@[j].x == best,
                forall|j: int| 0 <= j < i ==> self@[j].x <= best,
            decreases self.vertices.len() - i,
        {
            if self.vertices[i].x > best {
                best = self.vertices[i].x;
            }
            i += 1;
        }
        best
    }

    /// The number of vertices.
    pub fn len(&self) -> (count: usize)
        ensures
            count == self@.len(),
    {
        self.vertices.len()
    }

    /// The smallest rectangle that holds every vertex; `None` for a polygon
    /// without vertices.
    pub fn bbox(&self) -> (rect: Option<Rect>)
        ensures
            rect is None <==> self@.len() == 0,
            rect is Some ==> {
                &&& is_min_x(self@, rect->0.left as int)
                &&& is_min_y(self@, rect->0.bot as int)
                &&& is_max_x(self@, rect->0.right as int)
                &&& is_max_y(self@, rect->0.top as int)
                &&& rect->0.left <= rect->0.right
                &&& rect->0.bot <= rect->0.top
            },
    {
        if self.vertices.len() == 0 {
            None
        } else {
            Some(Rect { left: self.left(), bot: self.bot(), right: self.right(), top: self.top() })
        }
    }

    /// Moves every vertex by `p`.
    pub fn translate_mut(&mut self, p: Point)
        requires
            can_translate(old(self)@, p),
        ensures
            final(self)@.len() == old(self)@.len(),
            forall|i: int|
                0 <= i < old(self)@.len() ==> (#[trigger] final(self)@[i]).x == old(self)@[i].x
                    + p.x && final(self)@[i].y == old(self)@[i].y + p.y,
    {
        let mut i: usize = 0;
        while i < self.vertices.len()
            invariant
                i <= self.vertices.len(),
                self@.len() == old(self)@.len(),
                can_translate(old(self)@, p),
                forall|j: int|
                    0 <= j < i ==> (#[trigger] self@[j]).x == old(self)@[j].x + p.x && self@[j].y
                        == old(self)@[j].y + p.y,
                forall|j: int| i <= j < self@.len() ==> self@[j] == old(self)@[j],
            decreases self.vertices.len() - i,
        {
            let point = self.vertices[i];
            assert(i64::MIN <= old(self)@[i as int].x + p.x <= i64::MAX);
            self.vertices.set(i, Point { x: point.x + p.x, y: point.y + p.y });
            i += 1;
        }
    }
}

} // verus!
