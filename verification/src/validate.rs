//! The parameter validator: raw, untrusted query parameters go in, a typed
//! filter configuration or a descriptive error comes out.

use vstd::prelude::*;
use crate::parse::{is_int_numeral, numeral_val, parse_numeral, NumeralReading};

verus! {

/// One raw query-parameter value, as the transport layer hands it over:
/// either a plain text value, or a value of some other shape (a number, a
/// file, a nested map from a decoded request body).
pub enum ParamValue {
    Text(String),
    Other,
}

/// The raw inputs the validator looks at: each recognized parameter name,
/// absent or present with its raw value. Unrecognized names are ignored
/// before this point.
pub struct RawParams {
    pub description: Option<ParamValue>,
    pub season: Option<ParamValue>,
    pub series: Option<ParamValue>,
}

/// Everything that can be wrong with a request's parameters.
#[derive(Clone, Copy, PartialEq, Eq, Structural, Debug)]
pub enum ValidationError {
    /// `description` is text other than `"show"`.
    InvalidDescriptionValue,
    /// `description` is not text at all.
    InvalidDescriptionType,
    /// `season` is text that is not an integer numeral.
    SeasonParseError,
    /// `season` is an integer numeral whose value is outside 1 through 7.
    InvalidSeasonRange,
    /// `series` is non-empty text naming no known series.
    InvalidSeriesValue,
    /// `series` is not text at all.
    InvalidSeriesType,
}

/// The validated, immutable filter configuration built once per request.
#[derive(Debug)]
pub struct AppParams {
    pub show_description: bool,
    pub season_filter: Option<u8>,
    pub series_filter: Option<String>,
}

/// Mathematical image of an [`AppParams`]: the series filter as a character
/// sequence rather than an owned string.
pub struct ParamsView {
    pub show_description: bool,
    pub season_filter: Option<u8>,
    pub series_filter: Option<Seq<char>>,
}

impl View for AppParams {
    type V = ParamsView;

    open spec fn view(&self) -> ParamsView {
        ParamsView {
            show_description: self.show_description,
            season_filter: self.season_filter,
            series_filter: match self.series_filter {
                Some(s) => Some(s@),
                None => None,
            },
        }
    }
}

/// View of an optional series filter string.
pub open spec fn series_filter_view(f: Option<String>) -> Option<Seq<char>> {
    match f {
        Some(s) => Some(s@),
        None => None,
    }
}

/// The fixed set of selectable series codes.
pub open spec fn is_series_code(s: Seq<char>) -> bool {
    s == "TNG"@ || s == "DS9"@ || s == "Voyager"@
}

/// What the `description` parameter yields: absent means no description
/// column, the literal text `"show"` turns it on, anything else is an error.
pub open spec fn description_spec(v: Option<ParamValue>) -> Result<bool, ValidationError> {
    match v {
        None => Ok(false),
        Some(ParamValue::Text(s)) => if s@ == "show"@ {
            Ok(true)
        } else {
            Err(ValidationError::InvalidDescriptionValue)
        },
        Some(ParamValue::Other) => Err(ValidationError::InvalidDescriptionType),
    }
}

/// What the `season` parameter yields: absent, empty text, or a non-text
/// value mean no season filter; an integer numeral in 1..=7 selects that
/// season; any other integer numeral — whatever its size or sign — is out
/// of range; text that is no numeral at all is a parse error.
pub open spec fn season_spec(v: Option<ParamValue>) -> Result<Option<u8>, ValidationError> {
    match v {
        None => Ok(None),
        Some(ParamValue::Text(s)) => if s@.len() == 0 {
            Ok(None)
        } else if !is_int_numeral(s@) {
            Err(ValidationError::SeasonParseError)
        } else if 1 <= numeral_val(s@) && numeral_val(s@) <= 7 {
            Ok(Some(numeral_val(s@) as u8))
        } else {
            Err(ValidationError::InvalidSeasonRange)
        },
        Some(ParamValue::Other) => Ok(None),
    }
}

/// What the `series` parameter yields: absent or empty text mean no series
/// filter; one of the known codes selects that series; other text or a
/// non-text value is an error.
pub open spec fn series_spec(v: Option<ParamValue>) -> Result<Option<Seq<char>>, ValidationError> {
    match v {
        None => Ok(None),
        Some(ParamValue::Text(s)) => if is_series_code(s@) {
            Ok(Some(s@))
        } else if s@.len() == 0 {
            Ok(None)
        } else {
            Err(ValidationError::InvalidSeriesValue)
        },
        Some(ParamValue::Other) => Err(ValidationError::InvalidSeriesType),
    }
}

/// The whole validation, fail-fast in the order description, season,
/// series: the first rule broken decides the error.
pub open spec fn validate_spec(raw: RawParams) -> Result<ParamsView, ValidationError> {
    match description_spec(raw.description) {
        Err(e) => Err(e),
        Ok(show_description) => match season_spec(raw.season) {
            Err(e) => Err(e),
            Ok(season_filter) => match series_spec(raw.series) {
                Err(e) => Err(e),
                Ok(series_filter) => Ok(
                    ParamsView { show_description, season_filter, series_filter },
                ),
            },
        },
    }
}

/// Equality of a string with a literal, decided character for character.
fn text_is(s: &String, lit: &str) -> (r: bool)
    ensures
        r == (s@ == lit@),
{
    s.eq(&lit.to_owned())
}

/// Builds the validated filter configuration out of the raw parameters, or
/// reports the first rule they break. The result is exactly what
/// [`validate_spec`] says of the input.
pub fn get_app_params(raw: &RawParams) -> (r: Result<AppParams, ValidationError>)
    ensures
        match r {
            Ok(p) => validate_spec(*raw) == Ok::<ParamsView, ValidationError>(p@),
            Err(e) => validate_spec(*raw) == Err::<ParamsView, ValidationError>(e),
        },
{
    let show_description: bool = match &raw.description {
        None => false,
        Some(ParamValue::Text(s)) => if text_is(s, "show") {
            true
        } else {
            return Err(ValidationError::InvalidDescriptionValue);
        },
        Some(ParamValue::Other) => {
            return Err(ValidationError::InvalidDescriptionType);
        },
    };

    let season_filter: Option<u8> = match &raw.season {
        None => None,
        Some(ParamValue::Text(s)) => if s.as_str().is_empty() {
            None
        } else {
            match parse_numeral(s.as_str()) {
                NumeralReading::NotNumeral => {
                    return Err(ValidationError::SeasonParseError);
                },
                NumeralReading::Negative | NumeralReading::TooLarge => {
                    return Err(ValidationError::InvalidSeasonRange);
                },
                NumeralReading::Value(n) => if 1 <= n && n <= 7 {
                    Some(n)
                } else {
                    return Err(ValidationError::InvalidSeasonRange);
                },
            }
        },
        Some(ParamValue::Other) => None,
    };

    let series_filter: Option<String> = match &raw.series {
        None => None,
        Some(ParamValue::Text(s)) => if text_is(s, "TNG") || text_is(s, "DS9") || text_is(
            s,
            "Voyager",
        ) {
            Some(s.clone())
        } else if s.as_str().is_empty() {
            None
        } else {
            return Err(ValidationError::InvalidSeriesValue);
        },
        Some(ParamValue::Other) => {
            return Err(ValidationError::InvalidSeriesType);
        },
    };

    Ok(AppParams { show_description, season_filter, series_filter })
}

/// A short, fixed description of each validation error.
pub open spec fn message_spec(e: ValidationError) -> Seq<char> {
    match e {
        ValidationError::InvalidDescriptionValue => "invalid value for description"@,
        ValidationError::InvalidDescriptionType => "invalid type for description"@,
        ValidationError::SeasonParseError => "season parse error"@,
        ValidationError::InvalidSeasonRange => "invalid season"@,
        ValidationError::InvalidSeriesValue => "invalid series"@,
        ValidationError::InvalidSeriesType => "series is wrong type"@,
    }
}

impl ValidationError {
    /// The human-readable description surfaced with the error response.
    pub fn message(&self) -> (r: &'static str)
        ensures
            r@ == message_spec(*self),
    {
        match self {
            ValidationError::InvalidDescriptionValue => "invalid value for description",
            ValidationError::InvalidDescriptionType => "invalid type for description",
            ValidationError::SeasonParseError => "season parse error",
            ValidationError::InvalidSeasonRange => "invalid season",
            ValidationError::InvalidSeriesValue => "invalid series",
            ValidationError::InvalidSeriesType => "series is wrong type",
        }
    }
}

} // verus!
