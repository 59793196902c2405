//! The ranking and filtering engine: ranks are handed out once, as 1-based
//! positions in the catalog's original order, and filtering keeps a stable
//! subsequence of the ranked list without ever renumbering.

use vstd::prelude::*;
use crate::episodes::{Episode, RankedEpisode};
use crate::validate::series_filter_view;

verus! {

impl Clone for Episode {
    /// A field-for-field copy.
    fn clone(&self) -> (r: Self)
        ensures
            r == *self,
    {
        Episode {
            season: self.season,
            title: self.title.clone(),
            link: self.link.clone(),
            episode_num: self.episode_num.clone(),
            description: self.description.clone(),
            series: self.series.clone(),
        }
    }
}

impl Clone for RankedEpisode {
    /// A field-for-field copy.
    fn clone(&self) -> (r: Self)
        ensures
            r == *self,
    {
        RankedEpisode { rank: self.rank, episode: self.episode.clone() }
    }
}

/// The ranked catalog: each episode paired with its 1-based position in the
/// original order.
pub open spec fn rank_spec(dataset: Seq<Episode>) -> Seq<RankedEpisode> {
    Seq::new(
        dataset.len(),
        |i: int| RankedEpisode { rank: (i + 1) as u16, episode: dataset[i] },
    )
}

/// Whether a ranked episode passes the season and series filters: each
/// filter is either unset or must match exactly.
pub open spec fn keeps(e: RankedEpisode, season: Option<u8>, series: Option<Seq<char>>) -> bool {
    (match season {
        Some(n) => e.episode.season == n,
        None => true,
    }) && (match series {
        Some(v) => e.episode.series@ == v,
        None => true,
    })
}

/// The ranked catalog narrowed to the episodes that pass the filters, in
/// unchanged relative order.
pub open spec fn filter_spec(
    ranked: Seq<RankedEpisode>,
    season: Option<u8>,
    series: Option<Seq<char>>,
) -> Seq<RankedEpisode> {
    ranked.filter(|e: RankedEpisode| keeps(e, season, series))
}

/// Appending one element to a sequence appends it to the filtered sequence
/// exactly when it passes the predicate.
proof fn lemma_filter_push<A>(s: Seq<A>, pred: spec_fn(A) -> bool, x: A)
    ensures
        s.push(x).filter(pred) == if pred(x) {
            s.filter(pred).push(x)
        } else {
            s.filter(pred)
        },
{
    reveal(Seq::filter);
    assert(s.push(x).drop_last() =~= s);
    assert(s.push(x).last() == x);
}

/// Every element of a filtered sequence comes from the sequence it was
/// filtered out of.
proof fn lemma_filter_subset<A>(s: Seq<A>, pred: spec_fn(A) -> bool)
    ensures
        forall|x: A| (#[trigger] s.filter(pred).contains(x)) ==> s.contains(x),
    decreases s.len(),
{
    reveal(Seq::filter);
    if s.len() > 0 {
        let sub = s.drop_last();
        lemma_filter_subset(sub, pred);
        assert forall|x: A| (#[trigger] s.filter(pred).contains(x)) implies s.contains(x) by {
            if sub.filter(pred).contains(x) {
                let i = choose|i: int| 0 <= i < sub.len() && sub[i] == x;
                assert(s[i] == x);
            } else {
                assert(x == s.last());
                assert(s[s.len() - 1] == x);
            }
        }
    }
}

/// Assigns ranks 1 through N to the catalog in its original stored order.
/// This is the only place ranks are computed.
pub fn rank(dataset: &Vec<Episode>) -> (r: Vec<RankedEpisode>)
    requires
        dataset@.len() <= u16::MAX,
    ensures
        r@ == rank_spec(dataset@),
        r@.len() == dataset@.len(),
        forall|i: int|
            0 <= i < r@.len() ==> (#[trigger] r@[i]).rank == i + 1 && r@[i].episode == dataset@[i],
{
    let n = dataset.len();
    let mut r: Vec<RankedEpisode> = Vec::new();
    let mut i: usize = 0;
    while i < n
        invariant
            0 <= i <= n,
            n == dataset@.len() <= u16::MAX,
            r@.len() == i as int,
            forall|k: int| 0 <= k < i as int ==> #[trigger] r@[k] == rank_spec(dataset@)[k],
        decreases n - i,
    {
        r.push(RankedEpisode { rank: (i as u16) + 1, episode: dataset[i].clone() });
        i = i + 1;
    }
    proof {
        assert(r@ =~= rank_spec(dataset@));
    }
    r
}

/// Whether one ranked episode passes the filters.
fn keeps_exec(e: &RankedEpisode, season: &Option<u8>, series: &Option<String>) -> (r: bool)
    ensures
        r == keeps(*e, *season, series_filter_view(*series)),
{
    let season_ok = match season {
        Some(n) => e.episode.season == *n,
        None => true,
    };
    let series_ok = match series {
        Some(v) => e.episode.series.eq(v),
        None => true,
    };
    season_ok && series_ok
}

/// Keeps exactly the ranked episodes that pass the filters, preserving
/// their relative order and their ranks.
pub fn filter_episodes(
    ranked: &Vec<RankedEpisode>,
    season_filter: &Option<u8>,
    series_filter: &Option<String>,
) -> (r: Vec<RankedEpisode>)
    ensures
        r@ == filter_spec(ranked@, *season_filter, series_filter_view(*series_filter)),
{
    let ghost season = *season_filter;
    let ghost series = series_filter_view(*series_filter);
    let n = ranked.len();
    let mut r: Vec<RankedEpisode> = Vec::new();
    let mut i: usize = 0;
    while i < n
        invariant
            0 <= i <= n,
            n == ranked@.len(),
            season == *season_filter,
            series == series_filter_view(*series_filter),
            r@ == filter_spec(ranked@.take(i as int), season, series),
        decreases n - i,
    {
        let keep = keeps_exec(&ranked[i], season_filter, series_filter);
        proof {
            assert(ranked@.take(i + 1 as int) =~= ranked@.take(i as int).push(ranked@[i as int]));
            lemma_filter_push(
                ranked@.take(i as int),
                |e: RankedEpisode| keeps(e, season, series),
                ranked@[i as int],
            );
        }
        if keep {
            r.push(ranked[i].clone());
        }
        i = i + 1;
    }
    proof {
        assert(ranked@.take(n as int) =~= ranked@);
    }
    r
}

/// Ranks strictly ascend along the sequence.
pub open spec fn ranks_increasing(s: Seq<RankedEpisode>) -> bool {
    forall|i: int, j: int| 0 <= i < j < s.len() ==> (#[trigger] s[i]).rank < (#[trigger] s[j]).rank
}

/// Filtering a sequence whose ranks strictly ascend leaves the ranks
/// strictly ascending: the relative order of survivors is unchanged.
proof fn lemma_filter_keeps_order(s: Seq<RankedEpisode>, pred: spec_fn(RankedEpisode) -> bool)
    requires
        ranks_increasing(s),
    ensures
        ranks_increasing(s.filter(pred)),
    decreases s.len(),
{
    reveal(Seq::filter);
    if s.len() > 0 {
        let sub = s.drop_last();
        assert(ranks_increasing(sub)) by {
            assert(forall|i: int, j: int|
                0 <= i < j < sub.len() ==> sub[i] == s[i] && sub[j] == s[j]);
        }
        lemma_filter_keeps_order(sub, pred);
        if pred(s.last()) {
            let out = sub.filter(pred).push(s.last());
            lemma_filter_subset(sub, pred);
            assert forall|i: int, j: int|
                0 <= i < j < out.len() implies (#[trigger] out[i]).rank < (
            #[trigger] out[j]).rank by {
                if j < out.len() - 1 {
                    assert(sub.filter(pred)[i] == out[i] && sub.filter(pred)[j] == out[j]);
                } else {
                    assert(out[j] == s.last());
                    assert(sub.filter(pred).contains(out[i]));
                    assert(sub.contains(out[i]));
                    let k = choose|k: int| 0 <= k < sub.len() && sub[k] == out[i];
                    assert(s[k].rank < s[s.len() - 1].rank);
                }
            }
        }
    }
}

/// After filtering the ranked catalog, every surviving entry still carries
/// the rank of its original position: rank `k` always means the `k`-th
/// episode of the unfiltered catalog. Ranks are never renumbered.
pub proof fn lemma_ranks_preserved(
    dataset: Seq<Episode>,
    season: Option<u8>,
    series: Option<Seq<char>>,
)
    requires
        dataset.len() <= u16::MAX,
    ensures
        forall|j: int|
            0 <= j < filter_spec(rank_spec(dataset), season, series).len() ==> {
                let e = #[trigger] filter_spec(rank_spec(dataset), season, series)[j];
                &&& 1 <= e.rank <= dataset.len()
                &&& e.episode == dataset[e.rank - 1]
            },
{
    let ranked = rank_spec(dataset);
    let out = filter_spec(ranked, season, series);
    lemma_filter_subset(ranked, |e: RankedEpisode| keeps(e, season, series));
    assert forall|j: int| 0 <= j < out.len() implies {
        let e = #[trigger] out[j];
        &&& 1 <= e.rank <= dataset.len()
        &&& e.episode == dataset[e.rank - 1]
    } by {
        assert(out.contains(out[j]));
        assert(ranked.contains(out[j]));
        let i = choose|i: int| 0 <= i < ranked.len() && ranked[i] == out[j];
        assert(out[j].rank == i + 1);
    }
}

/// The filtered catalog holds exactly the ranked episodes that pass the
/// filters, and their relative order — read off their ranks — is the
/// original one.
pub proof fn lemma_filter_correct(
    dataset: Seq<Episode>,
    season: Option<u8>,
    series: Option<Seq<char>>,
)
    requires
        dataset.len() <= u16::MAX,
    ensures
        forall|x: RankedEpisode|
            #[trigger] filter_spec(rank_spec(dataset), season, series).contains(x) <==> (rank_spec(
                dataset,
            ).contains(x) && keeps(x, season, series)),
        ranks_increasing(filter_spec(rank_spec(dataset), season, series)),
{
    let ranked = rank_spec(dataset);
    let pred = |e: RankedEpisode| keeps(e, season, series);
    let out = filter_spec(ranked, season, series);
    lemma_filter_subset(ranked, pred);
    assert forall|x: RankedEpisode| #[trigger] out.contains(x) implies (ranked.contains(x)
        && keeps(x, season, series)) by {
        broadcast use vstd::seq_lib::group_filter_ensures;

        let j = choose|j: int| 0 <= j < out.len() && out[j] == x;
        assert(pred(out[j]));
    }
    assert forall|x: RankedEpisode| ranked.contains(x) && keeps(x, season, series) implies
        #[trigger] out.contains(x) by {
        broadcast use vstd::seq_lib::group_filter_ensures;

        let i = choose|i: int| 0 <= i < ranked.len() && ranked[i] == x;
        assert(pred(ranked[i]));
        assert(out.contains(ranked[i]));
    }
    assert(ranks_increasing(ranked));
    lemma_filter_keeps_order(ranked, pred);
}

} // verus!
