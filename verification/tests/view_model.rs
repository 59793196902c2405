use trek_rank::assembler::assemble;
use trek_rank::episodes::Episode;
use trek_rank::presenters::{get_seasons, get_series_list};
use trek_rank::ranking::{filter_episodes, rank};
use trek_rank::validate::{get_app_params, ParamValue, RawParams, ValidationError};

fn ep(season: u8, title: &str, series: &str) -> Episode {
    Episode {
        season,
        title: title.to_string(),
        link: String::new(),
        episode_num: String::new(),
        description: String::new(),
        series: series.to_string(),
    }
}

fn catalog() -> Vec<Episode> {
    vec![
        ep(1, "The Inner Light", "TNG"),
        ep(3, "The Visitor", "DS9"),
        ep(3, "Yesterday's Enterprise", "TNG"),
        ep(4, "Scorpion", "Voyager"),
        ep(3, "Duet", "DS9"),
    ]
}

fn text(s: &str) -> Option<ParamValue> {
    Some(ParamValue::Text(s.to_string()))
}

#[test]
fn rank_numbers_the_catalog_in_stored_order() {
    let ranked = rank(&catalog());
    assert_eq!(ranked.len(), 5);
    for (i, r) in ranked.iter().enumerate() {
        assert_eq!(r.rank as usize, i + 1);
    }
    assert_eq!(ranked[0].episode.title, "The Inner Light");
    assert_eq!(ranked[4].episode.title, "Duet");
}

#[test]
fn filtering_keeps_original_ranks_and_order() {
    let ranked = rank(&catalog());
    let out = filter_episodes(&ranked, &Some(3), &None);
    assert_eq!(out.len(), 3);
    assert_eq!(out[0].rank, 2);
    assert_eq!(out[1].rank, 3);
    assert_eq!(out[2].rank, 5);
    assert_eq!(out[0].episode.title, "The Visitor");
    assert_eq!(out[1].episode.title, "Yesterday's Enterprise");
    assert_eq!(out[2].episode.title, "Duet");
}

#[test]
fn both_filters_must_match() {
    let ranked = rank(&catalog());
    let out = filter_episodes(&ranked, &Some(3), &Some("DS9".to_string()));
    assert_eq!(out.len(), 2);
    assert_eq!(out[0].rank, 2);
    assert_eq!(out[1].rank, 5);
}

#[test]
fn season_selector_with_no_filter() {
    let seasons = get_seasons(None);
    assert_eq!(seasons.len(), 8);
    assert_eq!(seasons[0].number, "");
    assert_eq!(seasons[0].display, "All Seasons");
    assert!(seasons[0].selected);
    for n in 1..8 {
        assert_eq!(seasons[n].number, n.to_string());
        assert_eq!(seasons[n].display, format!("Season {}", n));
        assert!(!seasons[n].selected);
    }
}

#[test]
fn season_selector_marks_exactly_the_filtered_season() {
    let seasons = get_seasons(Some(3));
    let selected: Vec<usize> = (0..seasons.len()).filter(|&i| seasons[i].selected).collect();
    assert_eq!(selected, vec![3]);
    assert_eq!(seasons[3].number, "3");
}

#[test]
fn series_selector_with_no_filter() {
    let series = get_series_list(None);
    assert_eq!(series.len(), 4);
    assert_eq!(series[0].series.value, "");
    assert_eq!(series[0].series.name, "All Series");
    assert!(series[0].selected);
    assert_eq!(series[1].series.value, "TNG");
    assert_eq!(series[1].series.name, "The Next Generation");
    assert_eq!(series[2].series.value, "DS9");
    assert_eq!(series[2].series.name, "Deep Space 9");
    assert_eq!(series[3].series.value, "Voyager");
    assert_eq!(series[3].series.name, "Voyager");
    for j in 1..4 {
        assert!(!series[j].selected);
    }
}

#[test]
fn series_selector_marks_exactly_the_filtered_series() {
    let series = get_series_list(Some("Voyager".to_string()));
    let selected: Vec<usize> = (0..series.len()).filter(|&i| series[i].selected).collect();
    assert_eq!(selected, vec![3]);
}

#[test]
fn scenario_no_parameters_shows_the_whole_catalog() {
    let params = get_app_params(&RawParams { description: None, season: None, series: None })
        .unwrap();
    let dataset = catalog();
    let view = assemble(&dataset, params);
    assert_eq!(view.show_description, false);
    assert_eq!(view.show_rank, false);
    assert_eq!(view.episodes.len(), 5);
    for (i, r) in view.episodes.iter().enumerate() {
        assert_eq!(r.rank as usize, i + 1);
        assert_eq!(r.episode.title, dataset[i].title);
    }
    assert!(view.seasons[0].selected);
    assert!(view.series_list[0].selected);
}

#[test]
fn scenario_season_three_with_description() {
    let params = get_app_params(&RawParams {
        description: text("show"),
        season: text("3"),
        series: None,
    })
    .unwrap();
    let view = assemble(&catalog(), params);
    assert_eq!(view.show_description, true);
    assert_eq!(view.show_rank, true);
    assert_eq!(view.episodes.len(), 3);
    for r in &view.episodes {
        assert_eq!(r.episode.season, 3);
    }
    assert_eq!(view.episodes[0].rank, 2);
    assert_eq!(view.episodes[1].rank, 3);
    assert_eq!(view.episodes[2].rank, 5);
    let selected: Vec<usize> =
        (0..view.seasons.len()).filter(|&i| view.seasons[i].selected).collect();
    assert_eq!(selected, vec![3]);
    assert_eq!(view.seasons[3].number, "3");
}

#[test]
fn scenario_bad_season_fails_before_filtering() {
    let r = get_app_params(&RawParams {
        description: None,
        season: text("9"),
        series: text("TNG"),
    });
    assert_eq!(r.unwrap_err(), ValidationError::InvalidSeasonRange);
}

#[test]
fn series_filter_alone_turns_the_rank_column_on() {
    let params = get_app_params(&RawParams {
        description: None,
        season: None,
        series: text("TNG"),
    })
    .unwrap();
    let view = assemble(&catalog(), params);
    assert_eq!(view.show_rank, true);
    assert_eq!(view.episodes.len(), 2);
    assert_eq!(view.episodes[0].rank, 1);
    assert_eq!(view.episodes[1].rank, 3);
    let selected: Vec<usize> =
        (0..view.series_list.len()).filter(|&i| view.series_list[i].selected).collect();
    assert_eq!(selected, vec![1]);
}
