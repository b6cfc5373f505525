//! Points and axis-aligned boxes in whole world pixels, and the overlap test that decides
//! whether an entity touches a wall or stands in a room.
use vstd::prelude::*;

verus! {

/// A point or an extent on the map plane, in whole pixels.
#[derive(Clone, Copy, Debug, PartialEq, Eq, Structural)]
pub struct Point2 {
    pub x: i64,
    pub y: i64,
}

/// A position in the world: map plane coordinates and a drawing depth, in whole pixels.
#[derive(Clone, Copy, Debug, PartialEq, Eq, Structural)]
pub struct Point3 {
    pub x: i64,
    pub y: i64,
    pub z: i64,
}

impl Point3 {
    /// The map plane part of a position.
    pub fn truncate(self) -> (p: Point2)
        ensures
            p == (Point2 { x: self.x, y: self.y }),
    {
        Point2 { x: self.x, y: self.y }
    }
}

/// The point `(x, y)`, for writing points in specifications.
pub open spec fn point2(x: int, y: int) -> Point2 {
    Point2 { x: x as i64, y: y as i64 }
}

/// The position `(x, y, z)`, for writing positions in specifications.
pub open spec fn point3(x: int, y: int, z: int) -> Point3 {
    Point3 { x: x as i64, y: y as i64, z: z as i64 }
}

/// Bound on the coordinates and extents that the overlap test takes, so that doubling them
/// stays within `i64`.
pub const COORD_LIMIT: i64 = 0x4000_0000_0000;

/// Whether `v` lies within the coordinates that the overlap test takes.
pub open spec fn in_range(v: i64) -> bool {
    -COORD_LIMIT <= v <= COORD_LIMIT
}

/// Both coordinates of `p` lie within the coordinates that the overlap test takes.
pub open spec fn point_in_range(p: Point2) -> bool {
    in_range(p.x) && in_range(p.y)
}

/// The full extent of a room that an entity is tested against when no other extent is given.
pub const ROOM_EXTENT: i64 = 512;

/// Two boxes, given by their centres and full extents, overlap: the open intervals that they
/// cover intersect on both axes. Boxes that only touch along an edge do not overlap.
/// (Each inequality is the one on half extents, multiplied by two.)
pub open spec fn boxes_overlap(pos: Point2, size: Point2, other: Point2, other_size: Point2) -> bool {
    &&& 2 * pos.x - size.x < 2 * other.x + other_size.x
    &&& 2 * pos.x + size.x > 2 * other.x - other_size.x
    &&& 2 * pos.y - size.y < 2 * other.y + other_size.y
    &&& 2 * pos.y + size.y > 2 * other.y - other_size.y
}

/// Checks whether a box of extent `size` centred at `pos` overlaps a box of extent
/// `other_size` centred at `other`.
pub fn check_collision(pos: Point2, size: Point2, other: Point2, other_size: Point2) -> (hit: bool)
    requires
        point_in_range(pos),
        point_in_range(size),
        point_in_range(other),
        point_in_range(other_size),
    ensures
        hit == boxes_overlap(pos, size, other, other_size),
{
    2 * pos.x - size.x < 2 * other.x + other_size.x && 2 * pos.x + size.x > 2 * other.x
        - other_size.x && 2 * pos.y - size.y < 2 * other.y + other_size.y && 2 * pos.y + size.y > 2
        * other.y - other_size.y
}

/// Checks whether a box of extent `size` centred at `pos` overlaps a room centred at `room`,
/// a room being a square of extent `ROOM_EXTENT`.
pub fn check_room_collision(pos: Point2, size: Point2, room: Point2) -> (hit: bool)
    requires
        point_in_range(pos),
        point_in_range(size),
        point_in_range(room),
    ensures
        hit == boxes_overlap(pos, size, room, Point2 { x: ROOM_EXTENT, y: ROOM_EXTENT }),
{
    check_collision(pos, size, room, Point2 { x: ROOM_EXTENT, y: ROOM_EXTENT })
}

/// Overlap does not depend on which of the two boxes is asked about: a wall touches an entity
/// exactly when the entity touches the wall.
pub proof fn lemma_overlap_symmetric(a: Point2, a_size: Point2, b: Point2, b_size: Point2)
    ensures
        boxes_overlap(a, a_size, b, b_size) == boxes_overlap(b, b_size, a, a_size),
{
}

/// A box overlaps itself exactly when it has a positive extent on both axes.
pub proof fn lemma_overlap_self(a: Point2, a_size: Point2)
    ensures
        boxes_overlap(a, a_size, a, a_size) == (a_size.x > 0 && a_size.y > 0),
{
}

} // verus!
