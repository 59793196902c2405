use trek_rank::validate::{get_app_params, ParamValue, RawParams, ValidationError};

fn text(s: &str) -> Option<ParamValue> {
    Some(ParamValue::Text(s.to_string()))
}

fn raw(
    description: Option<ParamValue>,
    season: Option<ParamValue>,
    series: Option<ParamValue>,
) -> RawParams {
    RawParams { description, season, series }
}

#[test]
fn absent_parameters_mean_no_filters() {
    let r = get_app_params(&raw(None, None, None)).unwrap();
    assert_eq!(r.show_description, false);
    assert_eq!(r.season_filter, None);
    assert_eq!(r.series_filter, None);
}

#[test]
fn description_show_turns_the_column_on() {
    let r = get_app_params(&raw(text("show"), None, None)).unwrap();
    assert_eq!(r.show_description, true);
}

#[test]
fn description_other_text_is_an_error() {
    let r = get_app_params(&raw(text("hide"), None, None));
    assert_eq!(r.unwrap_err(), ValidationError::InvalidDescriptionValue);
}

#[test]
fn description_non_text_is_an_error() {
    let r = get_app_params(&raw(Some(ParamValue::Other), None, None));
    assert_eq!(r.unwrap_err(), ValidationError::InvalidDescriptionType);
}

#[test]
fn season_zero_is_out_of_range() {
    let r = get_app_params(&raw(None, text("0"), None));
    assert_eq!(r.unwrap_err(), ValidationError::InvalidSeasonRange);
}

#[test]
fn season_eight_is_out_of_range() {
    let r = get_app_params(&raw(None, text("8"), None));
    assert_eq!(r.unwrap_err(), ValidationError::InvalidSeasonRange);
}

#[test]
fn season_two_hundred_is_out_of_range() {
    let r = get_app_params(&raw(None, text("200"), None));
    assert_eq!(r.unwrap_err(), ValidationError::InvalidSeasonRange);
}

#[test]
fn season_three_hundred_is_out_of_range() {
    let r = get_app_params(&raw(None, text("300"), None));
    assert_eq!(r.unwrap_err(), ValidationError::InvalidSeasonRange);
}

#[test]
fn season_negative_is_out_of_range() {
    let r = get_app_params(&raw(None, text("-1"), None));
    assert_eq!(r.unwrap_err(), ValidationError::InvalidSeasonRange);
}

#[test]
fn season_that_is_no_numeral_is_a_parse_error() {
    let r = get_app_params(&raw(None, text("abc"), None));
    assert_eq!(r.unwrap_err(), ValidationError::SeasonParseError);
}

#[test]
fn season_with_trailing_text_is_a_parse_error() {
    let r = get_app_params(&raw(None, text("3x"), None));
    assert_eq!(r.unwrap_err(), ValidationError::SeasonParseError);
}

#[test]
fn season_bare_sign_is_a_parse_error() {
    let r = get_app_params(&raw(None, text("+"), None));
    assert_eq!(r.unwrap_err(), ValidationError::SeasonParseError);
}

#[test]
fn season_empty_means_no_filter() {
    let r = get_app_params(&raw(None, text(""), None)).unwrap();
    assert_eq!(r.season_filter, None);
}

#[test]
fn season_non_text_is_treated_as_absent() {
    let r = get_app_params(&raw(None, Some(ParamValue::Other), None)).unwrap();
    assert_eq!(r.season_filter, None);
}

#[test]
fn season_in_range_is_kept() {
    let r = get_app_params(&raw(None, text("3"), None)).unwrap();
    assert_eq!(r.season_filter, Some(3));
}

#[test]
fn season_with_plus_sign_is_a_numeral() {
    let r = get_app_params(&raw(None, text("+5"), None)).unwrap();
    assert_eq!(r.season_filter, Some(5));
}

#[test]
fn season_with_leading_zero_is_a_numeral() {
    let r = get_app_params(&raw(None, text("07"), None)).unwrap();
    assert_eq!(r.season_filter, Some(7));
}

#[test]
fn series_enterprise_is_an_error() {
    let r = get_app_params(&raw(None, None, text("Enterprise")));
    assert_eq!(r.unwrap_err(), ValidationError::InvalidSeriesValue);
}

#[test]
fn series_empty_means_no_filter() {
    let r = get_app_params(&raw(None, None, text(""))).unwrap();
    assert_eq!(r.series_filter, None);
}

#[test]
fn series_known_code_is_kept() {
    let r = get_app_params(&raw(None, None, text("DS9"))).unwrap();
    assert_eq!(r.series_filter, Some("DS9".to_string()));
}

#[test]
fn series_non_text_is_an_error() {
    let r = get_app_params(&raw(None, None, Some(ParamValue::Other)));
    assert_eq!(r.unwrap_err(), ValidationError::InvalidSeriesType);
}

#[test]
fn first_broken_rule_wins_description_before_season() {
    let r = get_app_params(&raw(text("x"), text("abc"), None));
    assert_eq!(r.unwrap_err(), ValidationError::InvalidDescriptionValue);
}

#[test]
fn first_broken_rule_wins_season_before_series() {
    let r = get_app_params(&raw(None, text("abc"), text("Enterprise")));
    assert_eq!(r.unwrap_err(), ValidationError::SeasonParseError);
}

#[test]
fn identical_input_yields_identical_results() {
    let a = get_app_params(&raw(text("show"), text("3"), text("TNG"))).unwrap();
    let b = get_app_params(&raw(text("show"), text("3"), text("TNG"))).unwrap();
    assert_eq!(a.show_description, b.show_description);
    assert_eq!(a.season_filter, b.season_filter);
    assert_eq!(a.series_filter, b.series_filter);

    let c = get_app_params(&raw(None, text("9"), None));
    let d = get_app_params(&raw(None, text("9"), None));
    assert_eq!(c.unwrap_err(), d.unwrap_err());
}

#[test]
fn error_messages_are_fixed_texts() {
    assert_eq!(
        ValidationError::InvalidDescriptionValue.message(),
        "invalid value for description"
    );
    assert_eq!(ValidationError::InvalidDescriptionType.message(), "invalid type for description");
    assert_eq!(ValidationError::SeasonParseError.message(), "season parse error");
    assert_eq!(ValidationError::InvalidSeasonRange.message(), "invalid season");
    assert_eq!(ValidationError::InvalidSeriesValue.message(), "invalid series");
    assert_eq!(ValidationError::InvalidSeriesType.message(), "series is wrong type");
}
