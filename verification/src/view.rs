//! What the player sees of a run: the part of the map the camera shows,
//! with everything standing on it drawn over the background.
use vstd::prelude::*;
use crate::coords::{Position, SquareArea, constrained_pos, max_int, min_int};
use crate::effects::RenderPosition;
use crate::entities::EntityCharacters;
use crate::map::{Layer, layer_height, layer_valid, layer_width, layer_rectangular};

verus! {

/// The area the camera shows of a layer `lw` wide and `lh` high, for a
/// view `vw` wide and `vh` high and the player at `p`: centred on the
/// player, pushed back inside the layer at each edge.
pub open spec fn camera_area(vw: int, vh: int, p: Position, lw: int, lh: int) -> SquareArea {
    let x1 = p.0 - vw / 2;
    let y1 = p.1 - vh / 2;
    let (x1, x2) = if x1 < 0 { (0, vw) } else { (x1, x1 + vw) };
    let (y1, y2) = if y1 < 0 { (0, vh) } else { (y1, y1 + vh) };
    let (x1, x2) = if x2 > lw { (max_int(lw - vw, 0), lw) } else { (x1, x2) };
    let (y1, y2) = if y2 > lh { (max_int(lh - vh, 0), lh) } else { (y1, y2) };
    SquareArea { corner1: Position(x1 as i32, y1 as i32), corner2: Position(x2 as i32, y2 as i32) }
}

/// Calculates the camera's visible area (see `camera_area`). The sizes
/// and the player's coordinates must leave room, in `i32`, for half a view
/// on either side.
pub fn get_camera_area(view_width: u16, view_height: u16, player_pos: &Position, layer: &Layer) -> (res:
    SquareArea)
    requires
        layer_valid(layer),
        layer_width(layer) <= i32::MAX,
        layer_height(layer) <= i32::MAX,
        i32::MIN + 0x8000 <= player_pos.0 <= i32::MAX - 0x8000,
        i32::MIN + 0x8000 <= player_pos.1 <= i32::MAX - 0x8000,
    ensures
        res == camera_area(
            view_width as int,
            view_height as int,
            *player_pos,
            layer_width(layer),
            layer_height(layer),
        ),
{
    let view_height = view_height as i32;
    let view_width = view_width as i32;
    let layer_height = layer.len() as i32;
    let layer_width = layer[0].len() as i32;
    let (player_x, player_y) = player_pos.get();
    let mut x1 = player_x - view_width / 2;
    let mut y1 = player_y - view_height / 2;
    let mut x2 = x1 + view_width;
    let mut y2 = y1 + view_height;
    if x1 < 0 {
        x1 = 0;
        x2 = view_width;
    }
    if y1 < 0 {
        y1 = 0;
        y2 = view_height;
    }
    if x2 > layer_width {
        x2 = layer_width;
        x1 = if layer_width - view_width > 0 { layer_width - view_width } else { 0 };
    }
    if y2 > layer_height {
        y2 = layer_height;
        y1 = if layer_height - view_height > 0 { layer_height - view_height } else { 0 };
    }
    SquareArea { corner1: Position(x1, y1), corner2: Position(x2, y2) }
}

/// The entity drawn at `p`: the last of the things drawn over the map that
/// stands there, else the background `base`.
pub open spec fn top_entity(overlays: Seq<RenderPosition>, p: Position, base: EntityCharacters) -> EntityCharacters
    decreases overlays.len(),
{
    if overlays.len() == 0 {
        base
    } else if overlays.last().0 == p {
        overlays.last().1
    } else {
        top_entity(overlays.drop_last(), p, base)
    }
}

/// The bounds `(x1, y1, x2, y2)` that are shown: those of the area, or the
/// whole layer.
pub open spec fn shown_bounds(area: Option<SquareArea>, layer: &Layer) -> (int, int, int, int) {
    match area {
        Some(a) => {
            let b = crate::coords::square_bounds(a);
            (b.0 as int, b.1 as int, b.2 as int, b.3 as int)
        },
        None => (0, 0, layer_width(layer) - 1, layer_height(layer) - 1),
    }
}

/// The first and last row shown.
pub open spec fn shown_rows(area: Option<SquareArea>, layer: &Layer) -> (int, int) {
    let b = shown_bounds(area, layer);
    (max_int(b.1, 0), min_int(b.3, layer_height(layer) - 1))
}

/// The first and last column shown.
pub open spec fn shown_cols(area: Option<SquareArea>, layer: &Layer) -> (int, int) {
    let b = shown_bounds(area, layer);
    (max_int(b.0, 0), min_int(b.2, layer_width(layer) - 1))
}

/// The cells shown of a rectangular layer inside `area` (the whole layer
/// where `None`), row by row: each is the background with the last of the
/// overlays standing there drawn over it (see `top_entity`).
pub fn flatten(layer: &Layer, area: Option<SquareArea>, overlays: &Vec<RenderPosition>) -> (res: Vec<
    Vec<EntityCharacters>,
>)
    requires
        layer_valid(layer),
        layer_rectangular(layer),
        area matches Some(a) ==> crate::coords::square_bounds(a).0 >= 0 && crate::coords::square_bounds(a).1 >= 0,
    ensures
        ({
            let (ylo, yhi) = shown_rows(area, layer);
            let (xlo, xhi) = shown_cols(area, layer);
            &&& res@.len() == max_int(yhi - ylo + 1, 0)
            &&& forall|r: int|
                0 <= r < res@.len() ==> {
                    &&& (#[trigger] res@[r])@.len() == max_int(xhi - xlo + 1, 0)
                    &&& forall|c: int|
                        0 <= c < res@[r]@.len() ==> #[trigger] res@[r]@[c] == top_entity(
                            overlays@,
                            Position((xlo + c) as i32, (ylo + r) as i32),
                            layer@[ylo + r]@[xlo + c],
                        )
                }
        }),
{
    let (x1, y1, x2, y2) = match area {
        Some(a) => a.get_bounds(),
        None => (0, 0, (layer[0].len() as i32) - 1, (layer.len() as i32) - 1),
    };
    let ylo: i32 = if y1 > 0 { y1 } else { 0 };
    let yhi: i32 = if y2 < (layer.len() as i32) - 1 { y2 } else { (layer.len() as i32) - 1 };
    let xlo: i32 = if x1 > 0 { x1 } else { 0 };
    let xhi: i32 = if x2 < (layer[0].len() as i32) - 1 { x2 } else { (layer[0].len() as i32) - 1 };
    let ghost rows = shown_rows(area, layer);
    let ghost cols = shown_cols(area, layer);
    assert(rows == (ylo as int, yhi as int));
    assert(cols == (xlo as int, xhi as int));
    let mut grid: Vec<Vec<EntityCharacters>> = Vec::new();
    let mut y: i32 = ylo;
    while y <= yhi
        invariant
            ylo <= y,
            y <= yhi + 1 || y == ylo,
            0 <= ylo,
            yhi < layer@.len(),
            0 <= xlo,
            xhi < layer_width(layer),
            layer_rectangular(layer),
            layer_valid(layer),
            grid@.len() == if y > ylo { y - ylo } else { 0 },
            forall|r: int|
                0 <= r < grid@.len() ==> {
                    &&& (#[trigger] grid@[r])@.len() == max_int(xhi - xlo + 1, 0)
                    &&& forall|c: int|
                        0 <= c < grid@[r]@.len() ==> #[trigger] grid@[r]@[c] == layer@[ylo + r]@[xlo + c]
                },
        decreases yhi - y + 1,
    {
        let mut row: Vec<EntityCharacters> = Vec::new();
        let mut x: i32 = xlo;
        while x <= xhi
            invariant
                xlo <= x,
                x <= xhi + 1 || x == xlo,
                layer_valid(layer),
                0 <= xlo,
                xhi < layer_width(layer),
                0 <= y < layer@.len(),
                layer_rectangular(layer),
                row@.len() == if x > xlo { x - xlo } else { 0 },
                forall|c: int| 0 <= c < row@.len() ==> #[trigger] row@[c] == layer@[y as int]@[xlo + c],
            decreases xhi - x + 1,
        {
            assert(layer@[y as int]@.len() == layer_width(layer));
            row.push(layer[y as usize][x as usize]);
            x = x + 1;
        }
        grid.push(row);
        y = y + 1;
    }
    let ghost base = grid@;
    let mut k: usize = 0;
    while k < overlays.len()
        invariant
            k <= overlays@.len(),
            grid@.len() == base.len(),
            0 <= ylo,
            0 <= xlo,
            yhi < layer@.len(),
            xhi < layer_width(layer),
            layer_valid(layer),
            base.len() == max_int(yhi - ylo + 1, 0),
            forall|r: int| 0 <= r < base.len() ==> (#[trigger] base[r])@.len() == max_int(xhi - xlo + 1, 0),
            forall|r: int| 0 <= r < grid@.len() ==> (#[trigger] grid@[r])@.len() == base[r]@.len(),
            forall|r: int, c: int|
                0 <= r < grid@.len() && 0 <= c < grid@[r]@.len() ==> #[trigger] grid@[r]@[c] == top_entity(
                    overlays@.take(k as int),
                    Position((xlo + c) as i32, (ylo + r) as i32),
                    base[r]@[c],
                ),
        decreases overlays@.len() - k,
    {
        let RenderPosition(p, e) = overlays[k];
        let ghost before = grid@;
        proof {
            assert(overlays@.take(k + 1).drop_last() =~= overlays@.take(k as int));
            assert(overlays@.take(k + 1).last() == overlays@[k as int]);
        }
        let mut hit = false;
        let mut r: usize = 0;
        let mut c: usize = 0;
        if p.1 >= ylo && p.0 >= xlo {
            r = (p.1 - ylo) as usize;
            c = (p.0 - xlo) as usize;
            if r < grid.len() {
                if c < grid[r].len() {
                    let mut row = grid.remove(r);
                    row.set(c, e);
                    grid.insert(r, row);
                    hit = true;
                }
            }
        }
        proof {
            assert forall|rr: int, cc: int|
                0 <= rr < grid@.len() && 0 <= cc < grid@[rr]@.len() implies #[trigger] grid@[rr]@[cc]
                    == top_entity(
                    overlays@.take(k + 1),
                    Position((xlo + cc) as i32, (ylo + rr) as i32),
                    base[rr]@[cc],
                ) by {
                let q = Position((xlo + cc) as i32, (ylo + rr) as i32);
                assert(base[rr]@.len() == max_int(xhi - xlo + 1, 0));
                assert(q.0 == xlo + cc && q.1 == ylo + rr);
                if hit && rr == r as int && cc == c as int {
                    assert(q == p);
                } else {
                    assert(grid@[rr]@[cc] == before[rr]@[cc]);
                    assert(q != p);
                }
            }
        }
        k = k + 1;
    }
    assert(overlays@.take(overlays@.len() as int) =~= overlays@);
    grid
}

/// The cells drawn for the effects, in order: each position of each effect
/// whose area can be listed, held to the layer, with the entity it shows.
pub open spec fn effect_cells(effects: Seq<crate::effects::DamageEffect>, layer: &Layer) -> Seq<RenderPosition>
    decreases effects.len(),
{
    if effects.len() == 0 {
        seq![]
    } else {
        let prev = effect_cells(effects.drop_last(), layer);
        let e = effects.last();
        if e.active_area.listable() {
            prev + e.active_area.positions().map_values(
                |p: Position| RenderPosition(constrained_pos(p, layer), e.active_entity),
            )
        } else {
            prev
        }
    }
}

/// A pickup as drawn, held to the layer.
pub open spec fn pickup_cell(layer: &Layer) -> spec_fn(crate::pickups::PickupTypes) -> RenderPosition {
    |p: crate::pickups::PickupTypes|
        RenderPosition(
            constrained_pos(crate::pickups::orb_of(p).position, layer),
            crate::pickups::orb_of(p).entity_char,
        )
}

/// An enemy as drawn, held to the layer.
pub open spec fn enemy_cell(layer: &Layer) -> spec_fn(crate::enemy::Enemy) -> RenderPosition {
    |e: crate::enemy::Enemy| RenderPosition(constrained_pos(e.position, layer), e.entitychar)
}

/// What is drawn over the map, in order: the pickups, the enemies, the
/// cells of the effects, then the character, each held to the layer.
pub open spec fn overlays(
    layer: &Layer,
    pickups: Seq<crate::pickups::PickupTypes>,
    enemies: Seq<crate::enemy::Enemy>,
    effects: Seq<crate::effects::DamageEffect>,
    character: crate::character::Character,
) -> Seq<RenderPosition> {
    pickups.map_values(pickup_cell(layer)) + enemies.map_values(enemy_cell(layer)) + effect_cells(
        effects,
        layer,
    ) + seq![RenderPosition(constrained_pos(character.position, layer), character.entitychar)]
}

/// What is drawn over the map (see `overlays`).
pub fn overlays_of(
    layer: &Layer,
    pickups: &Vec<crate::pickups::PickupTypes>,
    enemies: &Vec<crate::enemy::Enemy>,
    effects: &Vec<crate::effects::DamageEffect>,
    character: &crate::character::Character,
) -> (res: Vec<RenderPosition>)
    requires
        layer_valid(layer),
    ensures
        res@ == overlays(layer, pickups@, enemies@, effects@, *character),
{
    let mut res: Vec<RenderPosition> = Vec::new();
    let mut i: usize = 0;
    while i < pickups.len()
        invariant
            i <= pickups@.len(),
            layer_valid(layer),
            res@ == pickups@.take(i as int).map_values(pickup_cell(layer)),
        decreases pickups@.len() - i,
    {
        let mut p = pickups[i].get_pos();
        p.constrain(layer);
        res.push(RenderPosition(p, pickups[i].get_entity_char()));
        proof {
            assert(pickups@.take(i + 1) =~= pickups@.take(i as int).push(pickups@[i as int]));
            assert(res@ =~= pickups@.take(i + 1).map_values(pickup_cell(layer)));
        }
        i = i + 1;
    }
    assert(pickups@.take(i as int) =~= pickups@);
    let ghost first = res@;
    let mut i: usize = 0;
    while i < enemies.len()
        invariant
            i <= enemies@.len(),
            layer_valid(layer),
            first == pickups@.map_values(pickup_cell(layer)),
            res@ == first + enemies@.take(i as int).map_values(enemy_cell(layer)),
        decreases enemies@.len() - i,
    {
        let mut p = enemies[i].get_pos();
        p.constrain(layer);
        res.push(RenderPosition(p, enemies[i].get_entity_char()));
        proof {
            assert(enemies@.take(i + 1) =~= enemies@.take(i as int).push(enemies@[i as int]));
            assert(res@ =~= first + enemies@.take(i + 1).map_values(enemy_cell(layer)));
        }
        i = i + 1;
    }
    assert(enemies@.take(i as int) =~= enemies@);
    let ghost second = res@;
    let mut i: usize = 0;
    while i < effects.len()
        invariant
            i <= effects@.len(),
            layer_valid(layer),
            second == pickups@.map_values(pickup_cell(layer)) + enemies@.map_values(enemy_cell(layer)),
            res@ == second + effect_cells(effects@.take(i as int), layer),
        decreases effects@.len() - i,
    {
        proof {
            assert(effects@.take(i + 1).drop_last() =~= effects@.take(i as int));
        }
        if crate::coords::is_listable(&effects[i].active_area) {
            let cells = effects[i].get_instructions();
            let ghost before = res@;
            let ghost e = effects@[i as int];
            let ghost cellmap = e.active_area.positions().map_values(
                |p: Position| RenderPosition(constrained_pos(p, layer), e.active_entity),
            );
            let mut j: usize = 0;
            while j < cells.len()
                invariant
                    j <= cells@.len(),
                    layer_valid(layer),
                    cells@.len() == e.active_area.positions().len(),
                    forall|q: int| 0 <= q < cells@.len() ==> #[trigger] cells@[q] == RenderPosition(
                        e.active_area.positions()[q],
                        e.active_entity,
                    ),
                    cellmap == e.active_area.positions().map_values(
                        |p: Position| RenderPosition(constrained_pos(p, layer), e.active_entity),
                    ),
                    res@ == before + cellmap.take(j as int),
                decreases cells@.len() - j,
            {
                let RenderPosition(p, ent) = cells[j];
                let mut p = p;
                p.constrain(layer);
                res.push(RenderPosition(p, ent));
                proof {
                    assert(cellmap.take(j + 1) =~= cellmap.take(j as int).push(cellmap[j as int]));
                    assert(res@ =~= before + cellmap.take(j + 1));
                }
                j = j + 1;
            }
            proof {
                assert(cellmap.take(j as int) =~= cellmap);
                assert(res@ =~= second + effect_cells(effects@.take(i + 1), layer));
            }
        } else {
            proof {
                assert(res@ =~= second + effect_cells(effects@.take(i + 1), layer));
            }
        }
        i = i + 1;
    }
    assert(effects@.take(i as int) =~= effects@);
    let mut p = character.get_pos();
    p.constrain(layer);
    res.push(RenderPosition(p, character.get_entity_char()));
    proof {
        assert(res@ =~= overlays(layer, pickups@, enemies@, effects@, *character));
    }
    res
}

} // verus!
