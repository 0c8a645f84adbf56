//! Positions on the map, the four facing directions and the areas that
//! attacks and effects cover.
use vstd::prelude::*;
use vstd::arithmetic::div_mod::lemma_fundamental_div_mod_converse;
use crate::map::{Layer, layer_valid, layer_width, layer_height};

verus! {

/// A 2D position with x and y coordinates.
#[derive(Clone, Copy, Debug, PartialEq, Eq, Structural, PartialOrd, Ord, Hash)]
pub struct Position(pub i32, pub i32);

/// The larger of two integers.
pub open spec fn max_int(a: int, b: int) -> int {
    if a >= b { a } else { b }
}

/// The smaller of two integers.
pub open spec fn min_int(a: int, b: int) -> int {
    if a <= b { a } else { b }
}

/// A coordinate held to `0 ..= len - 1` (to `-1` where `len` is 0): first
/// raised to 0, then lowered to `len - 1`.
pub open spec fn constrained(v: int, len: int) -> int {
    min_int(max_int(v, 0), len - 1)
}

/// A position held inside a layer.
pub open spec fn constrained_pos(p: Position, layer: &Layer) -> Position {
    Position(
        constrained(p.0 as int, layer_width(layer)) as i32,
        constrained(p.1 as int, layer_height(layer)) as i32,
    )
}

/// Whether a position lies inside a bounding box `(min_x, min_y, max_x, max_y)`.
pub open spec fn in_bounds(p: Position, b: (i32, i32, i32, i32)) -> bool {
    b.0 <= p.0 <= b.2 && b.1 <= p.1 <= b.3
}

impl Position {
    /// Creates a new `Position`, ensuring that coordinates are not negative.
    pub fn new(x: i32, y: i32) -> (res: Position)
        ensures
            res.0 == max_int(x as int, 0),
            res.1 == max_int(y as int, 0),
    {
        let new_x = if x < 0 { 0 } else { x };
        let new_y = if y < 0 { 0 } else { y };
        Position(new_x, new_y)
    }

    /// Returns the (x, y) coordinates of the position.
    pub fn get(&self) -> (res: (i32, i32))
        ensures
            res == (self.0, self.1),
    {
        (self.0, self.1)
    }

    /// Returns the (x, y) coordinates as `usize`, negative ones raised to 0.
    pub fn get_as_usize(&self) -> (res: (usize, usize))
        ensures
            res.0 == max_int(self.0 as int, 0),
            res.1 == max_int(self.1 as int, 0),
    {
        let x: usize = if self.0 < 0 { 0 } else { self.0 as usize };
        let y: usize = if self.1 < 0 { 0 } else { self.1 as usize };
        (x, y)
    }

    /// Constrains the position to be within the boundaries of the given layer.
    pub fn constrain(&mut self, layer: &Layer)
        requires
            layer_valid(layer),
        ensures
            *final(self) == constrained_pos(*old(self), layer),
    {
        let w = layer[0].len() as i32;
        let h = layer.len() as i32;
        let x = if self.0 < 0 { 0 } else { self.0 };
        let x = if x > w - 1 { w - 1 } else { x };
        let y = if self.1 < 0 { 0 } else { self.1 };
        let y = if y > h - 1 { h - 1 } else { y };
        self.0 = x;
        self.1 = y;
    }

    /// Calculates the (dx, dy) distance from this position to another.
    pub fn get_distance(&self, other: &Position) -> (res: (i32, i32))
        requires
            i32::MIN <= other.0 - self.0 <= i32::MAX,
            i32::MIN <= other.1 - self.1 <= i32::MAX,
        ensures
            res.0 == other.0 - self.0,
            res.1 == other.1 - self.1,
    {
        (other.0 - self.0, other.1 - self.1)
    }

    /// Checks if the position is within the bounding box of the given area.
    pub fn is_in_area(&self, area: &AreaWrapper) -> (res: bool)
        ensures
            res == in_bounds(*self, area.bounds()),
    {
        let (min_x, min_y, max_x, max_y) = area.get_bounds();
        self.0 >= min_x && self.0 <= max_x && self.1 >= min_y && self.1 <= max_y
    }
}

/// Represents the four cardinal directions.
#[derive(Clone, Copy, Debug, PartialEq, Eq, Structural)]
pub enum Direction {
    LEFT,
    RIGHT,
    UP,
    DOWN,
}

/// Represents a rectangular area defined by two corner positions.
#[derive(Clone, Copy, Debug, PartialEq, Eq, Structural)]
pub struct SquareArea {
    pub corner1: Position,
    pub corner2: Position,
}

/// The bounding box `(min_x, min_y, max_x, max_y)` of two corners.
pub open spec fn square_bounds(a: SquareArea) -> (i32, i32, i32, i32) {
    (
        if a.corner1.0 <= a.corner2.0 { a.corner1.0 } else { a.corner2.0 },
        if a.corner1.1 <= a.corner2.1 { a.corner1.1 } else { a.corner2.1 },
        if a.corner1.0 >= a.corner2.0 { a.corner1.0 } else { a.corner2.0 },
        if a.corner1.1 >= a.corner2.1 { a.corner1.1 } else { a.corner2.1 },
    )
}

/// The number of cells of a bounding box with `min <= max` on both axes.
pub open spec fn box_cells(b: (i32, i32, i32, i32)) -> int {
    (b.2 - b.0 + 1) * (b.3 - b.1 + 1)
}

/// The cells of a bounding box, column by column from the left, each column
/// top to bottom.
pub open spec fn box_positions(b: (i32, i32, i32, i32)) -> Seq<Position> {
    let h = b.3 - b.1 + 1;
    Seq::new(
        box_cells(b) as nat,
        |k: int| Position((b.0 + k / h) as i32, (b.1 + k % h) as i32),
    )
}

impl SquareArea {
    /// Constructs an area defined by two corner positions.
    pub fn new(corner1: Position, corner2: Position) -> (res: SquareArea)
        ensures
            res.corner1 == corner1,
            res.corner2 == corner2,
    {
        SquareArea { corner1, corner2 }
    }

    /// Constructs an area with both corners at the world origin (0, 0).
    pub fn origin() -> (res: SquareArea)
        ensures
            res.corner1 == Position(0, 0),
            res.corner2 == Position(0, 0),
    {
        SquareArea { corner1: Position(0, 0), corner2: Position(0, 0) }
    }

    /// The area of a single position.
    pub fn from_position(value: Position) -> (res: SquareArea)
        ensures
            res.corner1 == value,
            res.corner2 == value,
    {
        SquareArea { corner1: value, corner2: value }
    }

    /// The area from the origin to the corner one past the layer's last cell.
    pub fn from_layer(value: &Layer) -> (res: SquareArea)
        requires
            layer_valid(value),
        ensures
            res.corner1 == Position(0, 0),
            res.corner2 == Position(layer_width(value) as i32, layer_height(value) as i32),
    {
        SquareArea {
            corner1: Position(0, 0),
            corner2: Position(value[0].len() as i32, value.len() as i32),
        }
    }

    /// Computes the axis-aligned bounding box `(min_x, min_y, max_x, max_y)`
    /// that encloses the area's corners.
    pub fn get_bounds(&self) -> (res: (i32, i32, i32, i32))
        ensures
            res == square_bounds(*self),
    {
        let (x1, y1) = self.corner1.get();
        let (x2, y2) = self.corner2.get();
        (
            if x1 <= x2 { x1 } else { x2 },
            if y1 <= y2 { y1 } else { y2 },
            if x1 >= x2 { x1 } else { x2 },
            if y1 >= y2 { y1 } else { y2 },
        )
    }

    /// Every cell of the area, column by column from the left, each column
    /// from the top.
    pub fn get_positions(&self) -> (res: Vec<Position>)
        requires
            box_cells(square_bounds(*self)) <= usize::MAX,
        ensures
            res@ == box_positions(square_bounds(*self)),
    {
        let (x1, y1, x2, y2) = self.get_bounds();
        box_positions_exec(x1, y1, x2, y2)
    }

    /// Constrains both corners to the layer.
    pub fn constrain(&mut self, layer: &Layer)
        requires
            layer_valid(layer),
        ensures
            final(self).corner1 == constrained_pos(old(self).corner1, layer),
            final(self).corner2 == constrained_pos(old(self).corner2, layer),
    {
        self.corner1.constrain(layer);
        self.corner2.constrain(layer);
    }
}

/// Builds the cells of the box `(x1, y1) ..= (x2, y2)`.
fn box_positions_exec(x1: i32, y1: i32, x2: i32, y2: i32) -> (res: Vec<Position>)
    requires
        x1 <= x2,
        y1 <= y2,
        box_cells((x1, y1, x2, y2)) <= usize::MAX,
    ensures
        res@ == box_positions((x1, y1, x2, y2)),
{
    let ghost b = (x1, y1, x2, y2);
    let ghost h = y2 - y1 + 1;
    let ghost w = x2 - x1 + 1;
    let ghost all = box_positions(b);
    let mut res: Vec<Position> = Vec::new();
    let mut x: i64 = x1 as i64;
    while x <= x2 as i64
        invariant
            x1 <= x <= x2 + 1,
            h == y2 - y1 + 1,
            w == x2 - x1 + 1,
            all == box_positions(b),
            b == (x1, y1, x2, y2),
            x1 <= x2,
            y1 <= y2,
            res@ == all.take((x - x1) * h),
            (x - x1) * h <= w * h,
        decreases x2 + 1 - x,
    {
        let mut y: i64 = y1 as i64;
        let ghost col = x - x1;
        assert((col + 1) * h <= w * h) by (nonlinear_arith)
            requires col < w, h > 0;
        assert(col * h + h == (col + 1) * h) by (nonlinear_arith);
        while y <= y2 as i64
            invariant
                x1 <= x <= x2,
                col == x - x1,
                y1 <= y <= y2 + 1,
                h == y2 - y1 + 1,
                w == x2 - x1 + 1,
                all == box_positions(b),
                b == (x1, y1, x2, y2),
                res@ == all.take(col * h + (y - y1)),
                (col + 1) * h <= w * h,
                col * h + h == (col + 1) * h,
            decreases y2 + 1 - y,
        {
            let ghost k = col * h + (y - y1);
            proof {
                lemma_fundamental_div_mod_converse(k, h, col, y - y1);
                assert(0 <= k < w * h) by (nonlinear_arith)
                    requires k == col * h + (y - y1), 0 <= col, 0 <= y - y1 < h, col * h + h <= w * h;
            }
            res.push(Position(x as i32, y as i32));
            assert(res@ =~= all.take(k + 1));
            y = y + 1;
        }
        x = x + 1;
    }
    assert(res@ =~= all);
    res
}

/// An area made of a list of positions.
#[derive(Clone, Debug)]
pub struct ChaosArea {
    pub position_list: Vec<Position>,
}

/// The bounding box of a list of positions, folded from
/// `(i32::MAX, i32::MAX, i32::MIN, i32::MIN)`.
pub open spec fn list_bounds(s: Seq<Position>) -> (i32, i32, i32, i32)
    decreases s.len(),
{
    if s.len() == 0 {
        (i32::MAX, i32::MAX, i32::MIN, i32::MIN)
    } else {
        let b = list_bounds(s.drop_last());
        let p = s.last();
        (
            if b.0 <= p.0 { b.0 } else { p.0 },
            if b.1 <= p.1 { b.1 } else { p.1 },
            if b.2 >= p.0 { b.2 } else { p.0 },
            if b.3 >= p.1 { b.3 } else { p.1 },
        )
    }
}

impl ChaosArea {
    /// An area made of the given positions.
    pub fn new(position_list: Vec<Position>) -> (res: ChaosArea)
        ensures
            res.position_list@ == position_list@,
    {
        ChaosArea { position_list }
    }

    /// An area with no positions.
    pub fn empty() -> (res: ChaosArea)
        ensures
            res.position_list@ == Seq::<Position>::empty(),
    {
        ChaosArea { position_list: Vec::new() }
    }

    /// The positions of the area.
    pub fn get_positions(&self) -> (res: Vec<Position>)
        ensures
            res@ == self.position_list@,
    {
        let mut res: Vec<Position> = Vec::new();
        let mut i: usize = 0;
        while i < self.position_list.len()
            invariant
                i <= self.position_list@.len(),
                res@ == self.position_list@.take(i as int),
            decreases self.position_list@.len() - i,
        {
            res.push(self.position_list[i]);
            assert(res@ =~= self.position_list@.take(i + 1));
            i = i + 1;
        }
        assert(res@ =~= self.position_list@);
        res
    }

    /// The bounding box `(min_x, min_y, max_x, max_y)` of the positions.
    pub fn get_bounds(&self) -> (res: (i32, i32, i32, i32))
        ensures
            res == list_bounds(self.position_list@),
    {
        let mut acc: (i32, i32, i32, i32) = (i32::MAX, i32::MAX, i32::MIN, i32::MIN);
        let mut i: usize = 0;
        while i < self.position_list.len()
            invariant
                i <= self.position_list@.len(),
                acc == list_bounds(self.position_list@.take(i as int)),
            decreases self.position_list@.len() - i,
        {
            let p = self.position_list[i];
            assert(self.position_list@.take(i + 1).drop_last() =~= self.position_list@.take(
                i as int,
            ));
            acc = (
                if acc.0 <= p.0 { acc.0 } else { p.0 },
                if acc.1 <= p.1 { acc.1 } else { p.1 },
                if acc.2 >= p.0 { acc.2 } else { p.0 },
                if acc.3 >= p.1 { acc.3 } else { p.1 },
            );
            i = i + 1;
        }
        assert(self.position_list@.take(i as int) =~= self.position_list@);
        acc
    }

    /// Constrains every position to the layer.
    pub fn constrain(&mut self, layer: &Layer)
        requires
            layer_valid(layer),
        ensures
            final(self).position_list@.len() == old(self).position_list@.len(),
            forall|i: int|
                0 <= i < old(self).position_list@.len() ==> final(self).position_list@[i]
                    == constrained_pos(#[trigger] old(self).position_list@[i], layer),
    {
        let ghost orig = self.position_list@;
        let mut i: usize = 0;
        while i < self.position_list.len()
            invariant
                layer_valid(layer),
                i <= self.position_list@.len(),
                self.position_list@.len() == orig.len(),
                forall|j: int| 0 <= j < i ==> self.position_list@[j] == constrained_pos(#[trigger] orig[j], layer),
                forall|j: int| i <= j < orig.len() ==> self.position_list@[j] == #[trigger] orig[j],
            decreases orig.len() - i,
        {
            let mut p = self.position_list[i];
            p.constrain(layer);
            self.position_list.set(i, p);
            i = i + 1;
        }
    }
}

/// An area of either shape.
#[derive(Clone, Debug)]
pub enum AreaWrapper {
    Square(SquareArea),
    Chaos(ChaosArea),
}

impl AreaWrapper {
    /// The bounding box of the area.
    pub open spec fn bounds(&self) -> (i32, i32, i32, i32) {
        match self {
            AreaWrapper::Square(s) => square_bounds(*s),
            AreaWrapper::Chaos(c) => list_bounds(c.position_list@),
        }
    }

    /// The positions of the area.
    pub open spec fn positions(&self) -> Seq<Position> {
        match self {
            AreaWrapper::Square(s) => box_positions(square_bounds(*s)),
            AreaWrapper::Chaos(c) => c.position_list@,
        }
    }

    /// Whether the area covers the position: inside the corners of a
    /// square area, or on the list of a chaos area.
    pub open spec fn covers(&self, p: Position) -> bool {
        match self {
            AreaWrapper::Square(s) => in_bounds(p, square_bounds(*s)),
            AreaWrapper::Chaos(c) => c.position_list@.contains(p),
        }
    }

    /// An area whose positions can be listed in memory.
    pub open spec fn listable(&self) -> bool {
        match self {
            AreaWrapper::Square(s) => box_cells(square_bounds(*s)) <= usize::MAX,
            AreaWrapper::Chaos(c) => true,
        }
    }

    /// The bounding box `(min_x, min_y, max_x, max_y)` of the area.
    pub fn get_bounds(&self) -> (res: (i32, i32, i32, i32))
        ensures
            res == self.bounds(),
    {
        match self {
            AreaWrapper::Square(s) => s.get_bounds(),
            AreaWrapper::Chaos(c) => c.get_bounds(),
        }
    }

    /// Every position of the area.
    pub fn get_positions(&self) -> (res: Vec<Position>)
        requires
            self.listable(),
        ensures
            res@ == self.positions(),
    {
        match self {
            AreaWrapper::Square(s) => s.get_positions(),
            AreaWrapper::Chaos(c) => c.get_positions(),
        }
    }

    /// Constrains the area to the layer.
    pub fn constrain(&mut self, layer: &Layer)
        requires
            layer_valid(layer),
        ensures
            match (*old(self), *final(self)) {
                (AreaWrapper::Square(a), AreaWrapper::Square(b)) => {
                    &&& b.corner1 == constrained_pos(a.corner1, layer)
                    &&& b.corner2 == constrained_pos(a.corner2, layer)
                },
                (AreaWrapper::Chaos(a), AreaWrapper::Chaos(b)) => {
                    &&& b.position_list@.len() == a.position_list@.len()
                    &&& forall|i: int|
                        0 <= i < a.position_list@.len() ==> b.position_list@[i]
                            == constrained_pos(#[trigger] a.position_list@[i], layer)
                },
                _ => false,
            },
    {
        match self {
            AreaWrapper::Square(s) => s.constrain(layer),
            AreaWrapper::Chaos(c) => c.constrain(layer),
        }
    }
}


/// Whether the area covers the position (see `AreaWrapper::covers`).
pub fn area_covers(area: &AreaWrapper, p: &Position) -> (res: bool)
    ensures
        res == area.covers(*p),
{
    match area {
        AreaWrapper::Square(s) => {
            let (x1, y1, x2, y2) = s.get_bounds();
            p.0 >= x1 && p.0 <= x2 && p.1 >= y1 && p.1 <= y2
        },
        AreaWrapper::Chaos(c) => {
            let mut i: usize = 0;
            while i < c.position_list.len()
                invariant
                    i <= c.position_list@.len(),
                    *area == AreaWrapper::Chaos(*c),
                    forall|j: int| 0 <= j < i ==> c.position_list@[j] != *p,
                decreases c.position_list@.len() - i,
            {
                if c.position_list[i] == *p {
                    assert(c.position_list@[i as int] == *p);
                    assert(c.position_list@.contains(*p));
                    return true;
                }
                i = i + 1;
            }
            false
        },
    }
}

/// Whether the positions of the area can be listed (see
/// `AreaWrapper::listable`).
pub fn is_listable(area: &AreaWrapper) -> (res: bool)
    ensures
        res == area.listable(),
{
    match area {
        AreaWrapper::Square(s) => {
            let (x1, y1, x2, y2) = s.get_bounds();
            let w: i128 = x2 as i128 - x1 as i128 + 1;
            let h: i128 = y2 as i128 - y1 as i128 + 1;
            assert(-0x1_0000_0000_0000_0000 <= w * h <= 0x1_0000_0000_0000_0000) by (nonlinear_arith)
                requires -0x1_0000_0000 <= w <= 0x1_0000_0000, -0x1_0000_0000 <= h <= 0x1_0000_0000;
            w * h <= usize::MAX as i128
        },
        AreaWrapper::Chaos(_) => true,
    }
}
} // verus!
