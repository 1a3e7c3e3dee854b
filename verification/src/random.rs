//! Random choices, made by the `rand` crate's standard generator.

use vstd::prelude::*;

use rand::rngs::StdRng;
use rand::seq::{IndexedRandom, IteratorRandom};

use crate::types::TilePosition;

verus! {

/// The standard seedable generator of `rand`; opaque here.
#[verifier::external_type_specification]
#[verifier::external_body]
pub struct ExStdRng(rand::rngs::StdRng);

/// `IndexedRandom::choose` on a slice of tiles: `None` for an empty slice,
/// otherwise the tile at an index drawn uniformly by `rng`. Which tile is
/// drawn depends on the generator's state and is not stated.
#[verifier::external_body]
pub(crate) fn choose_from_slice(candidates: &Vec<TilePosition>, rng: &mut StdRng) -> (r: Option<TilePosition>)
    ensures
        candidates@.len() == 0 <==> r is None,
        r matches Some(t) ==> candidates@.contains(t),
{
    candidates.as_slice().choose(rng).copied()
}

/// `IteratorRandom::choose` on the tiles of a vector, in order: `None` when it
/// is empty, otherwise one of its tiles, drawn by `rng`. Which tile is drawn
/// depends on the generator's state and is not stated.
#[verifier::external_body]
pub(crate) fn choose_from_iter(candidates: Vec<TilePosition>, rng: &mut StdRng) -> (r: Option<TilePosition>)
    ensures
        candidates@.len() == 0 <==> r is None,
        r matches Some(t) ==> candidates@.contains(t),
{
    candidates.into_iter().choose(rng)
}

} // verus!
