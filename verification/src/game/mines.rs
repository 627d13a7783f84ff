//! Random mine placement.
//!
//! A mine may go on any free square: one that is on the board, is no corner
//! and holds no mine yet. Each mine takes a square drawn evenly from the free
//! squares that are left. The draw is a rank among them in row-major order,
//! so no draw is ever thrown away, placement takes exactly as many draws as
//! there are mines to place, and it is known beforehand whether it can
//! succeed.

use rand::rngs::StdRng;
use rand::Rng;
use vstd::prelude::*;
use super::world::{GameError, World};

verus! {

/// rand's standard generator, `rand::rngs::StdRng`, carried as an opaque
/// value: nothing is claimed of what it holds.
#[verifier::external_type_specification]
#[verifier::external_body]
pub struct ExStdRng(StdRng);

/// Draws a number below `bound` from `rng`, by rand's `Rng::gen_range` with
/// the bounds 0 and `bound`.
///
/// Trusted, not proved: rand documents the value as lying in the half-open
/// range from the lower to the upper bound, and the call as panicking when
/// the lower bound is not below the upper one. Which number comes is left
/// open, and nothing is said of the generator afterwards.
#[verifier::external_body]
fn random_below(rng: &mut StdRng, bound: u32) -> (drawn: u32)
    requires
        bound > 0,
    ensures
        drawn < bound,
{
    rng.gen_range(0, bound)
}

/// The placement policy's excluded squares: `(x, y)` lies in the first or
/// last column and in the first or last row.
pub fn is_corner(world: &World, x: u8, y: u8) -> (corner: bool)
    ensures
        corner == world@.is_corner(x as int, y as int),
{
    let width: u8 = world.width();
    let height: u8 = world.height();
    (x == 0 || (width > 0 && x == width - 1)) && (y == 0 || (height > 0 && y == height - 1))
}

/// Whether random placement may put a mine on `(x, y)`.
pub fn is_free(world: &World, x: u8, y: u8) -> (free: bool)
    ensures
        free == world@.is_free(x as int, y as int),
{
    world.contains(x, y) && !is_corner(world, x, y) && !world.has_mine(x, y)
}

/// The number of free squares.
pub fn free_square_count(world: &World) -> (count: u32)
    ensures
        count == world@.free_squares().len(),
{
    let width: u8 = world.width();
    let height: u8 = world.height();
    let mut count: u32 = 0;
    proof {
        world.lemma_view_wf();
        world@.lemma_finite();
        world@.lemma_free_before_rows();
    }
    for y in 0..height
        invariant
            width == world@.width,
            height == world@.height,
            world@.wf(),
            count == world@.free_before(0, y as int).len(),
            count <= y * 255,
            forall|row: int| #[trigger]
                world@.free_before(world@.width, row) == world@.free_before(0, row + 1),
    {
        for x in 0..width
            invariant
                width == world@.width,
                y < height,
                height == world@.height,
                world@.wf(),
                count == world@.free_before(x as int, y as int).len(),
                count <= y * 255 + x,
        {
            proof {
                world@.lemma_finite();
                world@.lemma_free_before_next(x as int, y as int);
            }
            if is_free(world, x, y) {
                count += 1;
            }
        }
    }
    count
}

/// The free square with exactly `rank` free squares before it in row-major
/// order, or `None` if there are no more than `rank` free squares.
pub fn nth_free_square(world: &World, rank: u32) -> (found: Option<(u8, u8)>)
    ensures
        match found {
            Some((x, y)) => world@.is_free(x as int, y as int) && world@.free_before(
                x as int,
                y as int,
            ).len() == rank,
            None => world@.free_squares().len() <= rank,
        },
        found is Some <==> rank < world@.free_squares().len(),
{
    let width: u8 = world.width();
    let height: u8 = world.height();
    let mut seen: u32 = 0;
    proof {
        world.lemma_view_wf();
        world@.lemma_finite();
        world@.lemma_free_before_rows();
    }
    for y in 0..height
        invariant
            width == world@.width,
            height == world@.height,
            world@.wf(),
            seen == world@.free_before(0, y as int).len(),
            seen <= rank,
            forall|row: int| #[trigger]
                world@.free_before(world@.width, row) == world@.free_before(0, row + 1),
    {
        for x in 0..width
            invariant
                width == world@.width,
                y < height,
                height == world@.height,
                world@.wf(),
                seen == world@.free_before(x as int, y as int).len(),
                seen <= rank,
        {
            proof {
                world@.lemma_finite();
                world@.lemma_free_before_next(x as int, y as int);
            }
            if is_free(world, x, y) {
                if seen == rank {
                    proof {
                        world@.lemma_free_before_is_less(x as int, y as int);
                    }
                    return Some((x, y));
                }
                seen += 1;
            }
        }
    }
    None
}

/// A free square drawn evenly from all free squares, or `None` if the board
/// has none.
pub fn random_square_index(rng: &mut StdRng, world: &World) -> (drawn: Option<(u8, u8)>)
    ensures
        drawn is None <==> world@.free_squares().len() == 0,
        drawn matches Some((x, y)) ==> world@.is_free(x as int, y as int),
{
    let free: u32 = free_square_count(world);
    if free == 0 {
        None
    } else {
        let rank: u32 = random_below(rng, free);
        nth_free_square(world, rank)
    }
}

/// Puts `mines` new mines on the board, each on a free square of its own
/// drawn from `rng`: no corner is mined, no square is mined twice, and the
/// mines that were there stay. If the board has fewer than `mines` free
/// squares, nothing is placed and `InvalidMineCount` is returned.
pub fn generate_random_mines(world: &mut World, mines: u8, rng: &mut StdRng) -> (placed: Result<
    (),
    GameError,
>)
    ensures
        match placed {
            Ok(()) => {
                &&& mines <= old(world)@.free_squares().len()
                &&& final(world)@.width == old(world)@.width
                &&& final(world)@.height == old(world)@.height
                &&& final(world)@.exposed == old(world)@.exposed
                &&& old(world)@.mines.subset_of(final(world)@.mines)
                &&& final(world)@.mines.len() == old(world)@.mines.len() + mines
                &&& forall|p: (int, int)| #[trigger]
                    final(world)@.mines.contains(p) && !old(world)@.mines.contains(p)
                        ==> old(world)@.is_free(p.0, p.1)
            },
            Err(error) => {
                &&& error == GameError::InvalidMineCount
                &&& mines > old(world)@.free_squares().len()
                &&& *final(world) == *old(world)
            },
        },
{
    let free: u32 = free_square_count(world);
    if mines as u32 > free {
        return Err(GameError::InvalidMineCount);
    }
    for i in 0..mines
        invariant
            mines <= free,
            free == old(world)@.free_squares().len(),
            world@.width == old(world)@.width,
            world@.height == old(world)@.height,
            world@.exposed == old(world)@.exposed,
            old(world)@.mines.subset_of(world@.mines),
            world@.mines.len() == old(world)@.mines.len() + i,
            world@.free_squares().len() == free - i,
            forall|p: (int, int)| #[trigger]
                world@.mines.contains(p) && !old(world)@.mines.contains(p) ==> old(
                    world,
                )@.is_free(p.0, p.1),
    {
        let ghost before = world@;
        proof {
            world.lemma_view_wf();
            before.lemma_finite();
        }
        let (x, y) = random_square_index(rng, world).unwrap();
        world.place_mine(x, y).unwrap();
        proof {
            assert(world@.free_squares() =~= before.free_squares().remove((x as int, y as int)));
        }
    }
    Ok(())
}

} // verus!
