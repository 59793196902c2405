//! The episode catalog: the record type supplied by the dataset loader and
//! the rank-carrying pair produced by the ranking engine.

use vstd::prelude::*;

verus! {

/// One episode of the catalog, as the dataset loader hands it over.
/// Created once at load time and never mutated.
pub struct Episode {
    /// Season the episode belongs to; the catalog uses seasons 1 through 7.
    pub season: u8,
    pub title: String,
    pub link: String,
    /// Episode number in mixed formats, so it stays a string.
    pub episode_num: String,
    pub description: String,
    /// Series code, such as "TNG".
    pub series: String,
}

/// An episode paired with its fixed rank: the 1-based position in the
/// original, unfiltered catalog order. Filtering never renumbers ranks.
pub struct RankedEpisode {
    pub rank: u16,
    pub episode: Episode,
}

} // verus!
