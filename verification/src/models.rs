use vstd::prelude::*;

verus! {

/// A collection of series or movies.
#[derive(Debug)]
pub struct Collection {

}

/// A long form movie/film.
///
/// It contains no child media entries.
#[derive(Debug)]
pub struct Movie {

}

/// An episode is a single part or chunk of a [Series].
#[derive(Debug)]
pub struct Episode {

}

/// A series contains multiple episodes.
#[derive(Debug)]
pub struct Series {
    pub episodes: Vec<Episode>,
}

} // verus!
