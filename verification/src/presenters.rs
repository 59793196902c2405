//! The presenter builders: the season and series selector lists shown next
//! to the episode table, each entry knowing whether it is the active choice.

use vstd::prelude::*;
use vstd::string::StringExecFns;
use crate::validate::{is_series_code, series_filter_view};

verus! {

/// One selectable season, including the synthetic "All Seasons" choice.
pub struct SeasonPresenter {
    /// The season number as request-parameter text; empty for "All Seasons".
    pub number: String,
    /// The label shown to the reader.
    pub display: String,
    pub selected: bool,
}

/// One series: its request-parameter code and its full name.
pub struct Series {
    pub value: String,
    pub name: String,
}

/// One selectable series, including the synthetic "All Series" choice.
pub struct SeriesPresenter {
    pub series: Series,
    pub selected: bool,
}

/// The numeral shown for season `n` of 1 through 7.
pub open spec fn season_number(n: int) -> Seq<char> {
    if n == 1 {
        "1"@
    } else if n == 2 {
        "2"@
    } else if n == 3 {
        "3"@
    } else if n == 4 {
        "4"@
    } else if n == 5 {
        "5"@
    } else if n == 6 {
        "6"@
    } else {
        "7"@
    }
}

/// The label shown for season `n` of 1 through 7.
pub open spec fn season_display(n: int) -> Seq<char> {
    if n == 1 {
        "Season 1"@
    } else if n == 2 {
        "Season 2"@
    } else if n == 3 {
        "Season 3"@
    } else if n == 4 {
        "Season 4"@
    } else if n == 5 {
        "Season 5"@
    } else if n == 6 {
        "Season 6"@
    } else {
        "Season 7"@
    }
}

/// The code of the `j`-th series entry, for `j` in 1 through 3.
pub open spec fn series_value(j: int) -> Seq<char> {
    if j == 1 {
        "TNG"@
    } else if j == 2 {
        "DS9"@
    } else {
        "Voyager"@
    }
}

/// The full name of the `j`-th series entry, for `j` in 1 through 3.
pub open spec fn series_name(j: int) -> Seq<char> {
    if j == 1 {
        "The Next Generation"@
    } else if j == 2 {
        "Deep Space 9"@
    } else {
        "Voyager"@
    }
}

/// What the season selector list looks like: the "All Seasons" entry first,
/// then seasons 1 through 7 in ascending order, with exactly the entry
/// matching the filter marked selected.
pub open spec fn seasons_ok(s: Seq<SeasonPresenter>, filter: Option<u8>) -> bool {
    &&& s.len() == 8
    &&& s[0].number@ == Seq::<char>::empty()
    &&& s[0].display@ == "All Seasons"@
    &&& s[0].selected == filter.is_none()
    &&& forall|n: int| 1 <= n < 8 ==> (#[trigger] s[n].number)@ == season_number(n)
    &&& forall|n: int| 1 <= n < 8 ==> (#[trigger] s[n].display)@ == season_display(n)
    &&& forall|n: int| 1 <= n < 8 ==> ((#[trigger] s[n].selected) <==> filter == Some(n as u8))
}

/// What the series selector list looks like: the "All Series" entry first,
/// then the three series in declared order, with exactly the entry whose
/// code matches the filter marked selected.
pub open spec fn series_list_ok(s: Seq<SeriesPresenter>, filter: Option<Seq<char>>) -> bool {
    &&& s.len() == 4
    &&& s[0].series.value@ == Seq::<char>::empty()
    &&& s[0].series.name@ == "All Series"@
    &&& s[0].selected == filter.is_none()
    &&& forall|j: int| 1 <= j < 4 ==> (#[trigger] s[j].series.value)@ == series_value(j)
    &&& forall|j: int| 1 <= j < 4 ==> (#[trigger] s[j].series.name)@ == series_name(j)
    &&& forall|j: int| 1 <= j < 4 ==> ((#[trigger] s[j].selected) <==> filter == Some(series_value(j)))
}

/// One non-synthetic entry of the season selector.
fn season_entry(n: u8, filter: &Option<u8>) -> (r: SeasonPresenter)
    requires
        1 <= n <= 7,
    ensures
        r.number@ == season_number(n as int),
        r.display@ == season_display(n as int),
        r.selected <==> *filter == Some(n),
{
    let number: &str = match n {
        1 => "1",
        2 => "2",
        3 => "3",
        4 => "4",
        5 => "5",
        6 => "6",
        _ => "7",
    };
    let display: &str = match n {
        1 => "Season 1",
        2 => "Season 2",
        3 => "Season 3",
        4 => "Season 4",
        5 => "Season 5",
        6 => "Season 6",
        _ => "Season 7",
    };
    let selected = match filter {
        Some(f) => *f == n,
        None => false,
    };
    SeasonPresenter { number: number.to_owned(), display: display.to_owned(), selected }
}

/// Builds the season selector list for the current season filter.
pub fn get_seasons(season_filter: Option<u8>) -> (r: Vec<SeasonPresenter>)
    ensures
        seasons_ok(r@, season_filter),
{
    let mut r: Vec<SeasonPresenter> = Vec::new();
    r.push(
        SeasonPresenter {
            number: String::new(),
            display: "All Seasons".to_owned(),
            selected: season_filter.is_none(),
        },
    );
    let mut n: u8 = 1;
    while n <= 7
        invariant
            1 <= n <= 8,
            r@.len() == n as int,
            r@[0].number@ == Seq::<char>::empty(),
            r@[0].display@ == "All Seasons"@,
            r@[0].selected == season_filter.is_none(),
            forall|k: int| 1 <= k < n as int ==> (#[trigger] r@[k].number)@ == season_number(k),
            forall|k: int| 1 <= k < n as int ==> (#[trigger] r@[k].display)@ == season_display(k),
            forall|k: int|
                1 <= k < n as int ==> ((#[trigger] r@[k].selected) <==> season_filter == Some(
                    k as u8,
                )),
        decreases 8 - n as int,
    {
        r.push(season_entry(n, &season_filter));
        n = n + 1;
    }
    r
}

/// One non-synthetic entry of the series selector.
fn series_entry(value: &str, name: &str, filter: &Option<String>) -> (r: SeriesPresenter)
    ensures
        r.series.value@ == value@,
        r.series.name@ == name@,
        r.selected <==> series_filter_view(*filter) == Some(value@),
{
    let selected = match filter {
        Some(f) => f.eq(&value.to_owned()),
        None => false,
    };
    SeriesPresenter {
        series: Series { value: value.to_owned(), name: name.to_owned() },
        selected,
    }
}

/// Builds the series selector list for the current series filter.
pub fn get_series_list(series_filter: Option<String>) -> (r: Vec<SeriesPresenter>)
    ensures
        series_list_ok(r@, series_filter_view(series_filter)),
{
    let mut r: Vec<SeriesPresenter> = Vec::new();
    r.push(
        SeriesPresenter {
            series: Series { value: String::new(), name: "All Series".to_owned() },
            selected: series_filter.is_none(),
        },
    );
    r.push(series_entry("TNG", "The Next Generation", &series_filter));
    r.push(series_entry("DS9", "Deep Space 9", &series_filter));
    r.push(series_entry("Voyager", "Voyager", &series_filter));
    r
}

/// No two of the selectable series codes are the same text.
pub proof fn lemma_series_values_distinct()
    ensures
        forall|i: int, j: int|
            1 <= i < 4 && 1 <= j < 4 && i != j ==> series_value(i) != series_value(j),
        forall|j: int| 1 <= j < 4 ==> series_value(j) != Seq::<char>::empty(),
        forall|j: int| 1 <= j < 4 ==> series_value(j).len() > 0,
{
    reveal_strlit("TNG");
    reveal_strlit("DS9");
    reveal_strlit("Voyager");
    assert("TNG"@[0] == 'T' && "DS9"@[0] == 'D');
    assert("TNG"@.len() == 3 && "DS9"@.len() == 3 && "Voyager"@.len() == 7);
}

/// Exactly one entry of the season selector is marked selected, for any
/// valid season filter.
pub proof fn lemma_season_selection_exclusive(s: Seq<SeasonPresenter>, filter: Option<u8>)
    requires
        seasons_ok(s, filter),
        filter matches Some(n) ==> 1 <= n <= 7,
    ensures
        exists|i: int| 0 <= i < s.len() && (#[trigger] s[i].selected),
        forall|i: int, j: int|
            0 <= i < s.len() && 0 <= j < s.len() && (#[trigger] s[i].selected) && (
            #[trigger] s[j].selected) ==> i == j,
{
    match filter {
        None => {
            assert(s[0].selected);
        },
        Some(n) => {
            assert(s[n as int].selected);
        },
    }
}

/// Exactly one entry of the series selector is marked selected, for any
/// valid series filter.
pub proof fn lemma_series_selection_exclusive(s: Seq<SeriesPresenter>, filter: Option<Seq<char>>)
    requires
        series_list_ok(s, filter),
        filter matches Some(v) ==> is_series_code(v),
    ensures
        exists|i: int| 0 <= i < s.len() && (#[trigger] s[i].selected),
        forall|i: int, j: int|
            0 <= i < s.len() && 0 <= j < s.len() && (#[trigger] s[i].selected) && (
            #[trigger] s[j].selected) ==> i == j,
{
    lemma_series_values_distinct();
    match filter {
        None => {
            assert(s[0].selected);
        },
        Some(v) => {
            if v == series_value(1) {
                assert(s[1].selected);
            } else if v == series_value(2) {
                assert(s[2].selected);
            } else {
                assert(v == series_value(3));
                assert(s[3].selected);
            }
        },
    }
}

} // verus!
