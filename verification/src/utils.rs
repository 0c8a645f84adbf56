//! Small rules shared across the game: adjacency, where an entity may stand,
//! random spots on the map, and tick arithmetic.
use vstd::prelude::*;
use crate::coords::{Position, max_int};
use crate::map::{Layer, layer_valid, layer_width, layer_height};
use crate::rng::random_range_i32;
use vstd::utf8::{encode_utf8, is_char_boundary};
use vstd::string::StringSliceAdditionalSpecFns;

verus! {

/// The number of game ticks per second.
pub const TICK_RATE: u64 = 20;

/// Whether `position` is one of the four cells beside the character: one
/// step left, right, up or down.
pub open spec fn next_to(char_position: Position, position: Position) -> bool {
    abs_diff(position.0 as int, char_position.0 as int) + abs_diff(position.1 as int, char_position.1 as int)
        == 1
}

/// `|a - b|`.
pub open spec fn abs_diff(a: int, b: int) -> int {
    if a >= b { a - b } else { b - a }
}

/// Checks if a position is adjacent (up, down, left, or right) to the
/// character's position.
pub fn is_next_to_character(char_position: &Position, position: &Position) -> (res: bool)
    ensures
        res == next_to(*char_position, *position),
{
    let dx: i64 = position.0 as i64 - char_position.0 as i64;
    let dy: i64 = position.1 as i64 - char_position.1 as i64;
    let ax: i64 = if dx >= 0 { dx } else { -dx };
    let ay: i64 = if dy >= 0 { dy } else { -dy };
    ax + ay == 1
}

/// Whether an entity may stand at `position` on a map of the given size:
/// inside it and not on the character.
pub open spec fn standable(width: i32, height: i32, character: Option<Position>, position: Position) -> bool {
    0 <= position.0 < width && 0 <= position.1 < height && match character {
        Some(c) => c != position,
        None => true,
    }
}

/// Checks that `position` lies inside a map of the given size and not on the
/// character's position.
pub fn can_stand(width: i32, height: i32, character: Option<&Position>, position: &Position) -> (res:
    bool)
    ensures
        res == standable(
            width,
            height,
            match character {
                Some(c) => Some(*c),
                None => None,
            },
            *position,
        ),
{
    let (x, y) = position.get();
    let char_collision = match character {
        Some(c) => c.0 == position.0 && c.1 == position.1,
        None => false,
    };
    if x < 0 || x >= width || y < 0 || y >= height || char_collision {
        return false;
    }
    true
}

/// Whether a layer cell exists at the position: both coordinates, negative
/// ones read as 0, below the layer's width and height.
pub fn can_stand_on_layer(layer: &Layer, position: &Position) -> (res: bool)
    requires
        layer@.len() > 0,
    ensures
        res == (max_int(position.0 as int, 0) < layer_width(layer) && max_int(position.1 as int, 0)
            < layer_height(layer)),
{
    let (x, y) = position.get_as_usize();
    x < layer[0].len() && y < layer.len()
}

/// A random position on one of the four edges of the layer.
pub fn get_rand_position_on_edge(layer: &Layer) -> (res: Position)
    requires
        layer_valid(layer),
        layer_width(layer) > 0,
    ensures
        0 <= res.0 < layer_width(layer),
        0 <= res.1 < layer_height(layer),
        res.0 == 0 || res.0 == layer_width(layer) - 1 || res.1 == 0 || res.1 == layer_height(layer)
            - 1,
{
    let w = layer[0].len() as i32;
    let h = layer.len() as i32;
    let which_edge = random_range_i32(0, 4);
    if which_edge == 0 {
        Position::new(0, random_range_i32(0, h))
    } else if which_edge == 1 {
        Position::new(w - 1, random_range_i32(0, h))
    } else if which_edge == 2 {
        Position::new(random_range_i32(0, w), 0)
    } else {
        Position::new(random_range_i32(0, w), h - 1)
    }
}

/// A random position anywhere on the layer.
pub fn get_rand_position_on_layer(layer: &Layer) -> (res: Position)
    requires
        layer_valid(layer),
        layer_width(layer) > 0,
    ensures
        0 <= res.0 < layer_width(layer),
        0 <= res.1 < layer_height(layer),
{
    let w = layer[0].len() as i32;
    let h = layer.len() as i32;
    let x = random_range_i32(0, w);
    let y = random_range_i32(0, h);
    Position::new(x, y)
}

/// The number of ticks between events that happen `per_sec` thousandths of
/// times a second, rounded up; `u64::MAX` where they never happen.
pub open spec fn ticks_between(per_sec: int) -> int {
    if per_sec == 0 {
        u64::MAX as int
    } else if (TICK_RATE * 1000) as int % per_sec == 0 {
        (TICK_RATE * 1000) as int / per_sec
    } else {
        (TICK_RATE * 1000) as int / per_sec + 1
    }
}

/// How many ticks pass between events that happen `per_sec` thousandths of
/// times a second, rounded up.
pub fn per_sec_to_tick_count_to_u64(per_sec: u64) -> (res: u64)
    ensures
        res == ticks_between(per_sec as int),
{
    if per_sec == 0 {
        u64::MAX
    } else {
        let whole = TICK_RATE * 1000;
        let q = whole / per_sec;
        if whole % per_sec == 0 {
            q
        } else {
            q + 1
        }
    }
}

/// The place of the item at `position` in a list of numbered rows of
/// numbered items: the index of the first row numbered with the
/// position's y and, in it, of the first item numbered with its x.
/// Negative coordinates are read as 0.
pub fn find_in_2d_enum_vec<T>(vec: &[(usize, Vec<(usize, T)>)], position: &Position) -> (res:
    Option<(usize, usize)>)
    ensures
        ({
            let x = max_int(position.0 as int, 0);
            let y = max_int(position.1 as int, 0);
            match res {
                Some((r, c)) => {
                    &&& r < vec@.len()
                    &&& vec@[r as int].0 == y
                    &&& forall|i: int| 0 <= i < r ==> #[trigger] vec@[i].0 != y
                    &&& c < vec@[r as int].1@.len()
                    &&& vec@[r as int].1@[c as int].0 == x
                    &&& forall|j: int| 0 <= j < c ==> #[trigger] vec@[r as int].1@[j].0 != x
                },
                None => forall|r: int|
                    0 <= r < vec@.len() && #[trigger] vec@[r].0 == y ==> (forall|i: int|
                        0 <= i < r ==> vec@[i].0 != y) ==> forall|j: int|
                        0 <= j < vec@[r].1@.len() ==> #[trigger] vec@[r].1@[j].0 != x,
            }
        }),
{
    let (x, y) = position.get_as_usize();
    let mut r: usize = 0;
    while r < vec.len()
        invariant
            r <= vec@.len(),
            forall|i: int| 0 <= i < r ==> #[trigger] vec@[i].0 != y,
            x == max_int(position.0 as int, 0),
            y == max_int(position.1 as int, 0),
        decreases vec@.len() - r,
    {
        if vec[r].0 == y {
            let row = &vec[r].1;
            let mut c: usize = 0;
            while c < row.len()
                invariant
                    c <= row@.len(),
                    r < vec@.len(),
                    *row == vec@[r as int].1,
                    vec@[r as int].0 == y,
                    forall|i: int| 0 <= i < r ==> #[trigger] vec@[i].0 != y,
                    x == max_int(position.0 as int, 0),
                    y == max_int(position.1 as int, 0),
                    forall|j: int| 0 <= j < c ==> #[trigger] row@[j].0 != x,
                decreases row@.len() - c,
            {
                if row[c].0 == x {
                    return Some((r, c));
                }
                c = c + 1;
            }
            return None;
        }
        r = r + 1;
    }
    None
}

/// The item at `position` in a list of numbered rows of numbered items,
/// to change in place: the one `find_in_2d_enum_vec` finds, if any.
pub fn get_mut_item_in_2d_enum_vec<'a, T>(vec: &'a mut [(usize, Vec<(usize, T)>)], position: &Position) -> (res:
    Option<&'a mut T>)
    ensures
        ({
            let x = max_int(position.0 as int, 0);
            let y = max_int(position.1 as int, 0);
            match res {
                Some(t) => exists|r: int, c: int|
                    {
                        &&& 0 <= r < old(vec)@.len()
                        &&& old(vec)@[r].0 == y
                        &&& (forall|i: int| 0 <= i < r ==> #[trigger] old(vec)@[i].0 != y)
                        &&& 0 <= c < old(vec)@[r].1@.len()
                        &&& old(vec)@[r].1@[c].0 == x
                        &&& (forall|j: int| 0 <= j < c ==> #[trigger] old(vec)@[r].1@[j].0 != x)
                        &&& *t == old(vec)@[r].1@[c].1
                        &&& final(vec)@.len() == old(vec)@.len()
                        &&& (forall|i: int| 0 <= i < old(vec)@.len() && i != r ==> #[trigger] final(vec)@[i] == old(vec)@[i])
                        &&& final(vec)@[r].0 == y
                        &&& final(vec)@[r].1@ == old(vec)@[r].1@.update(c, (x as usize, *final(t)))
                    },
                None => {
                    &&& final(vec)@ == old(vec)@
                    &&& forall|r: int|
                        0 <= r < old(vec)@.len() && #[trigger] old(vec)@[r].0 == y ==> (forall|i: int|
                            0 <= i < r ==> old(vec)@[i].0 != y) ==> forall|j: int|
                            0 <= j < old(vec)@[r].1@.len() ==> #[trigger] old(vec)@[r].1@[j].0 != x
                },
            }
        }),
{
    match find_in_2d_enum_vec(vec, position) {
        Some((r, c)) => Some(&mut vec[r].1[c].1),
        None => None,
    }
}

/// The first `max_len` bytes of `s`, or all of it where it is no longer.
pub fn trim_string(s: String, max_len: usize) -> (res: String)
    requires
        encode_utf8(s@).len() <= usize::MAX,
        encode_utf8(s@).len() > max_len ==> is_char_boundary(encode_utf8(s@), max_len as int),
    ensures
        encode_utf8(s@).len() > max_len ==> encode_utf8(res@) =~= encode_utf8(s@).subrange(
            0,
            max_len as int,
        ),
        encode_utf8(s@).len() <= max_len ==> res@ == s@,
{
    if s.as_str().len() > max_len {
        let whole = s.as_str();
        assert(whole.spec_bytes() == encode_utf8(s@));
        let pair = whole.split_at(max_len);
        let head = pair.0;
        assert(head.spec_bytes() =~= whole.spec_bytes().subrange(0, max_len as int));
        let res = head.to_owned();
        assert(encode_utf8(res@) == head.spec_bytes());
        res
    } else {
        s
    }
}

} // verus!
