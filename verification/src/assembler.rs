//! The view assembler: one call turns the catalog and a validated filter
//! configuration into the complete view-model handed to a renderer.

use vstd::prelude::*;
use crate::episodes::{Episode, RankedEpisode};
use crate::presenters::{
    get_seasons, get_series_list, seasons_ok, series_list_ok, SeasonPresenter, SeriesPresenter,
};
use crate::ranking::{filter_episodes, filter_spec, rank, rank_spec};
use crate::validate::{series_filter_view, AppParams};

verus! {

/// The renderer-ready view-model: the filtered, ranked episode list, the
/// two selector lists, and the display flags. Fully determined by the
/// catalog and the filter configuration.
pub struct App {
    pub episodes: Vec<RankedEpisode>,
    pub show_description: bool,
    pub seasons: Vec<SeasonPresenter>,
    pub show_rank: bool,
    pub series_list: Vec<SeriesPresenter>,
}

/// Builds the view-model: ranks the catalog, filters it by the validated
/// configuration, builds both selector lists, and shows the rank column
/// exactly when some filter is set.
pub fn assemble(dataset: &Vec<Episode>, params: AppParams) -> (r: App)
    requires
        dataset@.len() <= u16::MAX,
    ensures
        r.episodes@ == filter_spec(
            rank_spec(dataset@),
            params.season_filter,
            series_filter_view(params.series_filter),
        ),
        r.show_description == params.show_description,
        r.show_rank == (params.season_filter is Some || params.series_filter is Some),
        seasons_ok(r.seasons@, params.season_filter),
        series_list_ok(r.series_list@, series_filter_view(params.series_filter)),
{
    let ranked = rank(dataset);
    let episodes = filter_episodes(&ranked, &params.season_filter, &params.series_filter);
    let show_rank = params.season_filter.is_some() || params.series_filter.is_some();
    let seasons = get_seasons(params.season_filter);
    let series_list = get_series_list(params.series_filter);
    App { episodes, show_description: params.show_description, seasons, show_rank, series_list }
}

} // verus!
