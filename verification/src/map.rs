//! The map that a run is played on: a rectangular layer of background cells.
use vstd::prelude::*;
use crate::entities::{EntityCharacters, Style, Color, plain_style};
use crate::rng::random_range_i32;
use crate::coords::Position;

verus! {

/// Rows of cells, top to bottom; each row holds its cells left to right.
pub type Layer = Vec<Vec<EntityCharacters>>;

/// The number of cells in the first row of a layer.
pub open spec fn layer_width(layer: &Layer) -> int {
    layer@[0]@.len() as int
}

/// The number of rows of a layer.
pub open spec fn layer_height(layer: &Layer) -> int {
    layer@.len() as int
}

/// A layer that has a first row and whose sizes fit in an `i32`.
pub open spec fn layer_valid(layer: &Layer) -> bool {
    &&& layer@.len() > 0
    &&& layer@.len() <= i32::MAX
    &&& layer@[0]@.len() <= i32::MAX
}

/// Every row of the layer is as long as the first.
pub open spec fn layer_rectangular(layer: &Layer) -> bool {
    forall|i: int| 0 <= i < layer@.len() ==> #[trigger] layer@[i]@.len() == layer_width(layer)
}


/// A cell of a freshly filled map: either background, drawn black or dark
/// gray.
pub open spec fn background_cell(e: EntityCharacters) -> bool {
    let dark = Style { fg: Some(Color::DarkGray), ..plain_style() };
    let black = Style { fg: Some(Color::Black), ..plain_style() };
    e == EntityCharacters::Background1(dark) || e == EntityCharacters::Background2(dark)
        || e == EntityCharacters::Background1(black) || e == EntityCharacters::Background2(black)
}

/// A map of `width` by `height` background cells.
pub struct WorldMap {
    pub width: usize,
    pub height: usize,
    pub map: Layer,
}

impl WorldMap {
    /// A map of the given size, filled (see `fill`).
    pub fn new(width: usize, height: usize) -> (res: WorldMap)
        ensures
            res.width == width,
            res.height == height,
            res.map@.len() == height,
            forall|y: int| 0 <= y < height ==> (#[trigger] res.map@[y])@.len() == width,
            forall|y: int, x: int|
                0 <= y < height && 0 <= x < width ==> background_cell(#[trigger] res.map@[y]@[x]),
    {
        let mut new = WorldMap { height, width, map: Vec::new() };
        new.fill();
        new
    }

    /// Fills the map with `height` rows of `width` cells, each a background
    /// cell of either kind, drawn black with chance 2 in 10 and dark gray
    /// otherwise.
    pub fn fill(&mut self)
        ensures
            final(self).width == old(self).width,
            final(self).height == old(self).height,
            final(self).map@.len() == old(self).height,
            forall|y: int| 0 <= y < old(self).height ==> (#[trigger] final(self).map@[y])@.len() == old(self).width,
            forall|y: int, x: int|
                0 <= y < old(self).height && 0 <= x < old(self).width ==> background_cell(
                    #[trigger] final(self).map@[y]@[x],
                ),
    {
        let mut map: Layer = Vec::new();
        let mut y: usize = 0;
        while y < self.height
            invariant
                y <= self.height,
                map@.len() == y,
                forall|r: int| 0 <= r < y ==> (#[trigger] map@[r])@.len() == self.width,
                forall|r: int, x: int| 0 <= r < y && 0 <= x < self.width ==> background_cell(#[trigger] map@[r]@[x]),
            decreases self.height - y,
        {
            let mut row: Vec<EntityCharacters> = Vec::new();
            let mut x: usize = 0;
            while x < self.width
                invariant
                    x <= self.width,
                    row@.len() == x,
                    forall|c: int| 0 <= c < x ==> background_cell(#[trigger] row@[c]),
                decreases self.width - x,
            {
                let kind = random_range_i32(0, 2);
                let shade = random_range_i32(0, 10);
                let color = if shade < 2 { Color::Black } else { Color::DarkGray };
                let style = Style::new().fg(color);
                if kind == 0 {
                    row.push(EntityCharacters::Background1(style));
                } else {
                    row.push(EntityCharacters::Background2(style));
                }
                x = x + 1;
            }
            map.push(row);
            y = y + 1;
        }
        self.map = map;
    }

    /// The map's cells.
    pub fn get_layer(&self) -> (res: &Layer)
        ensures
            res == &self.map,
    {
        &self.map
    }
}

/// The cell of the layer at the position.
pub fn get_pos(layer: &Layer, position: &Position) -> (res: EntityCharacters)
    requires
        0 <= position.1 < layer@.len(),
        0 <= position.0 < layer@[position.1 as int]@.len(),
    ensures
        res == layer@[position.1 as int]@[position.0 as int],
{
    let (x, y) = position.get_as_usize();
    layer[y][x]
}
} // verus!
