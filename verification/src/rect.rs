//! Axis-aligned rectangles anchored at their bottom-left corner, positive
//! sizes, and the canonical four-way quadrant decomposition with its
//! deterministic classification order.

use vstd::prelude::*;

use crate::point::{Point, MAX_COORD};

verus! {

/// Largest width or height, in raw units, that a size may hold: the diameter
/// of the coordinate space.
pub const MAX_SIZE: i64 = 2_000_000_000;

/// A strictly positive width/height pair, in raw units. The positivity
/// invariant is enforced at construction: no constructor returns a `Size`
/// that violates it.
#[derive(Clone, Copy, PartialEq, Debug)]
pub struct Size {
    pub width: i64,
    pub height: i64,
}

impl Size {
    /// Width and height are strictly positive and representable.
    pub open spec fn wf(self) -> bool {
        &&& 0 < self.width <= MAX_SIZE
        &&& 0 < self.height <= MAX_SIZE
    }

    /// Builds a size from a strictly positive width and height. A
    /// non-positive extent is a programming error at the call site, so it is
    /// excluded here rather than recovered from; [`Size::try_new`] is the
    /// recoverable boundary for unvalidated input.
    pub fn new(width: i64, height: i64) -> (s: Size)
        requires
            0 < width <= MAX_SIZE,
            0 < height <= MAX_SIZE,
        ensures
            s == (Size { width, height }),
            s.wf(),
    {
        Size { width, height }
    }

    /// Validating constructor: yields the size exactly when the width and
    /// height are strictly positive and representable, and fails otherwise.
    pub fn try_new(width: i64, height: i64) -> (r: Option<Size>)
        ensures
            r is Some <==> (0 < width <= MAX_SIZE && 0 < height <= MAX_SIZE),
            (0 < width <= MAX_SIZE && 0 < height <= MAX_SIZE) ==> r == Some(
                Size { width, height },
            ),
    {
        if 0 < width && width <= MAX_SIZE && 0 < height && height <= MAX_SIZE {
            Some(Size { width, height })
        } else {
            None
        }
    }
}

/// One of the four compass-named quadrants of a rectangle, carrying the
/// sub-rectangle that represents the region.
#[derive(Clone, Copy, PartialEq, Debug)]
pub enum Quadrant {
    NW(Rect),
    NE(Rect),
    SW(Rect),
    SE(Rect),
}

/// A rectangle whose origin denotes the position of its bottom-left corner.
/// The upper bound is derived, never stored.
#[derive(Clone, Copy, PartialEq, Debug)]
pub struct Rect {
    pub origin: Point,
    pub size: Size,
}

impl Rect {
    /// The origin, the size and the derived upper corner all lie within the
    /// kernel's coordinate space.
    pub open spec fn wf(self) -> bool {
        &&& self.origin.wf()
        &&& self.size.wf()
        &&& self.origin.x + self.size.width <= MAX_COORD
        &&& self.origin.y + self.size.height <= MAX_COORD
    }

    /// Containment is inclusive on both bounds: a point exactly on any edge,
    /// the upper-right corner included, counts as contained.
    pub open spec fn spec_contains(self, p: Point) -> bool {
        &&& self.origin.x <= p.x <= self.origin.x + self.size.width
        &&& self.origin.y <= p.y <= self.origin.y + self.size.height
    }

    /// The point lies strictly inside the rectangle, on none of its edges.
    pub open spec fn spec_strictly_inside(self, p: Point) -> bool {
        &&& self.origin.x < p.x < self.origin.x + self.size.width
        &&& self.origin.y < p.y < self.origin.y + self.size.height
    }

    /// Half the width, rounded down: one quadrant's width.
    pub open spec fn quarter_width(self) -> int {
        self.size.width as int / 2
    }

    /// Half the height, rounded down: one quadrant's height.
    pub open spec fn quarter_height(self) -> int {
        self.size.height as int / 2
    }

    /// The south-west quadrant: a quarter-sized rectangle at the origin.
    pub open spec fn sw_rect(self) -> Rect {
        Rect {
            origin: self.origin,
            size: Size {
                width: self.quarter_width() as i64,
                height: self.quarter_height() as i64,
            },
        }
    }

    /// The south-east quadrant: the south-west one shifted right by the
    /// quadrant width.
    pub open spec fn se_rect(self) -> Rect {
        Rect {
            origin: Point {
                x: (self.origin.x + self.quarter_width()) as i64,
                y: self.origin.y,
            },
            size: self.sw_rect().size,
        }
    }

    /// The north-east quadrant: the south-east one shifted up by the
    /// quadrant height.
    pub open spec fn ne_rect(self) -> Rect {
        Rect {
            origin: Point {
                x: (self.origin.x + self.quarter_width()) as i64,
                y: (self.origin.y + self.quarter_height()) as i64,
            },
            size: self.sw_rect().size,
        }
    }

    /// The north-west quadrant: the north-east one shifted left by the
    /// quadrant width.
    pub open spec fn nw_rect(self) -> Rect {
        Rect {
            origin: Point { x: self.origin.x, y: (self.origin.y + self.quarter_height()) as i64 },
            size: self.sw_rect().size,
        }
    }

    /// The quadrant holding the point, tested in the fixed priority order
    /// north-west, north-east, south-west, south-east: a point on a shared
    /// edge belongs to the first quadrant of that order that contains it.
    pub open spec fn spec_which_quadrant(self, p: Point) -> Option<Quadrant> {
        if self.nw_rect().spec_contains(p) {
            Some(Quadrant::NW(self.nw_rect()))
        } else if self.ne_rect().spec_contains(p) {
            Some(Quadrant::NE(self.ne_rect()))
        } else if self.sw_rect().spec_contains(p) {
            Some(Quadrant::SW(self.sw_rect()))
        } else if self.se_rect().spec_contains(p) {
            Some(Quadrant::SE(self.se_rect()))
        } else {
            None
        }
    }

    /// Builds the rectangle with origin `(x, y)` and the given extent. The
    /// whole rectangle must lie within the coordinate space, and the extent
    /// must be strictly positive, as for [`Size::new`]; [`Rect::try_new`] is
    /// the recoverable boundary for unvalidated input.
    pub fn new(x: i64, y: i64, width: i64, height: i64) -> (r: Rect)
        requires
            -MAX_COORD <= x <= MAX_COORD,
            -MAX_COORD <= y <= MAX_COORD,
            0 < width,
            0 < height,
            x + width <= MAX_COORD,
            y + height <= MAX_COORD,
        ensures
            r == (Rect { origin: (Point { x, y }), size: (Size { width, height }) }),
            r.wf(),
    {
        Rect { origin: Point::new(x, y), size: Size::new(width, height) }
    }

    /// Validating constructor: yields the rectangle exactly when the extent
    /// is strictly positive and the whole rectangle lies within the
    /// coordinate space, and fails otherwise.
    pub fn try_new(x: i64, y: i64, width: i64, height: i64) -> (r: Option<Rect>)
        ensures
            r is Some <==> (-MAX_COORD <= x <= MAX_COORD && -MAX_COORD <= y <= MAX_COORD && 0
                < width && 0 < height && x + width <= MAX_COORD && y + height <= MAX_COORD),
            r matches Some(rect) ==> rect == (Rect {
                origin: (Point { x, y }),
                size: (Size { width, height }),
            }) && rect.wf(),
    {
        if -MAX_COORD <= x && x <= MAX_COORD && -MAX_COORD <= y && y <= MAX_COORD && 0 < width && 0
            < height && width <= MAX_COORD - x && height <= MAX_COORD - y {
            Some(Rect { origin: Point::new(x, y), size: Size { width, height } })
        } else {
            None
        }
    }

    /// Whether the rectangle contains the point, inclusively on all edges.
    pub fn contains(&self, point: &Point) -> (r: bool)
        requires
            self.wf(),
        ensures
            r == self.spec_contains(*point),
    {
        let upper = self.upper_bound();
        point.x >= self.origin.x && point.y >= self.origin.y && point.x <= upper.x && point.y
            <= upper.y
    }

    /// Splits the rectangle into its four equal-sized quadrants, in the order
    /// `(NW, NE, SW, SE)`: each is quarter-sized, and together they tile the
    /// rectangle with shared boundary edges, each built by translating the
    /// previous one. A side must measure at least two raw units to halve.
    pub fn quadrants(&self) -> (r: (Rect, Rect, Rect, Rect))
        requires
            self.wf(),
            self.size.width >= 2,
            self.size.height >= 2,
        ensures
            r.0 == self.nw_rect(),
            r.1 == self.ne_rect(),
            r.2 == self.sw_rect(),
            r.3 == self.se_rect(),
            r.0.size.width == self.size.width as int / 2,
            r.0.size.height == self.size.height as int / 2,
            r.1.size == r.0.size && r.2.size == r.0.size && r.3.size == r.0.size,
            r.0.wf() && r.1.wf() && r.2.wf() && r.3.wf(),
    {
        let southwest = self.quarter_sized();
        let size = southwest.size;

        let mut southeast = southwest;
        southeast.origin.x = southeast.origin.x + size.width;

        let mut northeast = southeast;
        northeast.origin.y = northeast.origin.y + size.height;

        let mut northwest = northeast;
        northwest.origin.x = northwest.origin.x - size.width;

        (northwest, northeast, southwest, southeast)
    }

    /// Classifies the point against the four quadrants in the fixed priority
    /// order north-west, north-east, south-west, south-east, returning the
    /// first quadrant that contains it, or `None` when the point lies
    /// outside all four.
    pub fn which_quadrant(&self, point: &Point) -> (r: Option<Quadrant>)
        requires
            self.wf(),
            self.size.width >= 2,
            self.size.height >= 2,
        ensures
            r == self.spec_which_quadrant(*point),
    {
        let (nw, ne, sw, se) = self.quadrants();
        if nw.contains(point) {
            return Some(Quadrant::NW(nw));
        }
        if ne.contains(point) {
            return Some(Quadrant::NE(ne));
        }
        if sw.contains(point) {
            return Some(Quadrant::SW(sw));
        }
        if se.contains(point) {
            return Some(Quadrant::SE(se));
        }
        None
    }

    /// A rectangle at the same origin with half the width and height: one
    /// quadrant's worth of area.
    fn quarter_sized(&self) -> (r: Rect)
        requires
            self.wf(),
            self.size.width >= 2,
            self.size.height >= 2,
        ensures
            r == self.sw_rect(),
            r.wf(),
    {
        let w = self.size.width / 2;
        let h = self.size.height / 2;
        Rect::new(self.origin.x, self.origin.y, w, h)
    }

    /// The derived upper-right corner.
    fn upper_bound(&self) -> (p: Point)
        requires
            self.wf(),
        ensures
            p.x == self.origin.x + self.size.width,
            p.y == self.origin.y + self.size.height,
    {
        Point { x: self.origin.x + self.size.width, y: self.origin.y + self.size.height }
    }
}

/// With even sides the four quadrants exactly tile their rectangle: a point
/// is classified to some quadrant exactly when the rectangle contains it, so
/// inclusive containment leaves no gap along the shared midlines.
pub proof fn lemma_quadrants_cover(r: Rect, p: Point)
    requires
        r.wf(),
        r.size.width % 2 == 0,
        r.size.height % 2 == 0,
    ensures
        r.spec_which_quadrant(p) is Some <==> r.spec_contains(p),
{
}

/// A point strictly inside one quadrant is classified to that quadrant: the
/// priority order can only reassign points on shared edges.
pub proof fn lemma_strict_interior_classifies(r: Rect, p: Point)
    requires
        r.wf(),
        r.size.width >= 2,
        r.size.height >= 2,
    ensures
        r.nw_rect().spec_strictly_inside(p) ==> r.spec_which_quadrant(p) == Some(
            Quadrant::NW(r.nw_rect()),
        ),
        r.ne_rect().spec_strictly_inside(p) ==> r.spec_which_quadrant(p) == Some(
            Quadrant::NE(r.ne_rect()),
        ),
        r.sw_rect().spec_strictly_inside(p) ==> r.spec_which_quadrant(p) == Some(
            Quadrant::SW(r.sw_rect()),
        ),
        r.se_rect().spec_strictly_inside(p) ==> r.spec_which_quadrant(p) == Some(
            Quadrant::SE(r.se_rect()),
        ),
{
}

/// A contained point on the shared vertical midline resolves west: to NW when
/// it is on or above the horizontal midline, to SW below it, and never to NE
/// or SE, by the declared priority order.
pub proof fn lemma_vertical_midline_resolves_west(r: Rect, p: Point)
    requires
        r.wf(),
        r.size.height % 2 == 0,
        r.spec_contains(p),
        p.x == r.origin.x + r.quarter_width(),
    ensures
        p.y >= r.origin.y + r.quarter_height() ==> r.spec_which_quadrant(p) == Some(
            Quadrant::NW(r.nw_rect()),
        ),
        p.y < r.origin.y + r.quarter_height() ==> r.spec_which_quadrant(p) == Some(
            Quadrant::SW(r.sw_rect()),
        ),
{
}

} // verus!
