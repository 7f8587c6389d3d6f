//! The weather providers and what they share.

use vstd::prelude::*;
use vstd::string::StringExecFns;
use url::ParseError;
use url::Url;
use crate::errors::AppError;
use crate::weather::Coordinates;
use crate::weather::ForecastTime;
use crate::weather::UnitType;
use crate::weather::Weather;
use crate::weather::WeatherView;

pub mod open_weather;
pub mod weather_api;

verus! {

/// How many characters the base of an address, and its path, may have.
pub const MAX_ADDRESS_PART: usize = 4_096;

/// The address that `url::Url::parse` makes of `base` once
/// `url::Url::set_path` has given it `path`, as text; nothing where `base`
/// is no absolute URL.
pub uninterp spec fn address_with_path(base: Seq<char>, path: Seq<char>) -> Option<Seq<char>>;

/// `url::Url::parse` on `base`, then `url::Url::set_path` with `path`, and
/// the address as the text that the conversion of `url::Url` to `String`
/// gives. The address depends on the two texts alone; it is named, not
/// described. It fails exactly where `parse` fails, with the error of
/// `parse`. `set_path` cannot take an address of more than 4 GiB, so long
/// texts are not admitted.
#[verifier::external_body]
pub(crate) fn write_address(base: &str, path: &str) -> (r: Result<String, ParseError>)
    requires
        base@.len() <= MAX_ADDRESS_PART,
        path@.len() <= MAX_ADDRESS_PART,
    ensures
        match r {
            Ok(address) => address_with_path(base@, path@) == Some(address@),
            Err(_) => address_with_path(base@, path@) is None,
        },
{
    let mut url = Url::parse(base)?;
    url.set_path(path);
    Ok(url.into())
}

/// What is asked of a provider: the address, and the parameters of the
/// query in their order, each a name and a value.
#[derive(Debug)]
pub struct Request {
    pub url: String,
    pub query: Vec<(String, String)>,
}

/// One parameter of a query.
pub fn param(name: &str, value: String) -> (r: (String, String))
    ensures
        r.deep_view() == (name@, value@),
{
    (String::from_str(name), value)
}

/// Whether `r` is the outcome `expected`: the same forecast, or a failure
/// to tell a time with the same detail.
pub open spec fn is_weather_outcome(
    r: Result<Weather, AppError>,
    expected: Result<WeatherView, Seq<char>>,
) -> bool {
    match expected {
        Ok(view) => r matches Ok(w) && w@ == view,
        Err(detail) => r matches Err(AppError::TimeParse(d)) && d@ == detail,
    }
}

/// A source of weather: it says what it is to be asked, and reads the
/// forecast from its answer. The call itself is made elsewhere, and the
/// clock is read elsewhere.
pub trait Provider {
    /// What the provider answers with.
    type Answer;

    /// The address that the provider is asked at.
    spec fn address(&self) -> Seq<char>;

    /// The parameters that the provider is asked with.
    spec fn query(&self, coord: Coordinates, time: ForecastTime, unit: UnitType) -> Seq<
        (Seq<char>, Seq<char>),
    >;

    /// The forecast that an answer holds for a time range as of `now`, or
    /// the detail of the failure to tell a time.
    spec fn outcome(data: Self::Answer, now: int, time: ForecastTime, unit: UnitType) -> Result<
        WeatherView,
        Seq<char>,
    >;

    /// What is asked of the provider for a position, a time range and a
    /// system of units.
    fn request(&self, coord: Coordinates, time: ForecastTime, unit: UnitType) -> (r: Request)
        ensures
            r.url@ == self.address(),
            r.query.deep_view() == self.query(coord, time, unit),
    ;

    /// The forecast that an answer holds for a time range as of `now`, in
    /// seconds since 1970.
    fn interpret_at(
        &self,
        data: Self::Answer,
        now: i64,
        time: ForecastTime,
        unit: UnitType,
    ) -> (r: Result<Weather, AppError>)
        ensures
            is_weather_outcome(r, Self::outcome(data, now as int, time, unit)),
    ;
}

/// How many hours a forecast by the hour holds at most.
pub const HOURS_AHEAD: usize = 24;

/// Whether an hour that starts at `epoch` still counts at `now`: it started
/// less than an hour ago, or lies ahead. Both are seconds since 1970.
pub open spec fn is_upcoming(epoch: int, now: int) -> bool {
    epoch - now > -3_600
}

/// Whether an hour that starts at `epoch` still counts at `now`.
pub fn starts_in_time(epoch: i64, now: i64) -> (r: bool)
    ensures
        r == is_upcoming(epoch as int, now as int),
{
    (epoch as i128) - (now as i128) > -3_600
}

/// The first `n` items of `s`, or all of them where `s` has fewer.
pub open spec fn first_n<T>(s: Seq<T>, n: nat) -> Seq<T> {
    if s.len() <= n {
        s
    } else {
        s.take(n as int)
    }
}

/// The values that a sequence of references points to.
pub open spec fn pointees<T>(s: Seq<&T>) -> Seq<T> {
    s.map_values(|r: &T| *r)
}

/// Filtering a sequence that grew by one item keeps what was kept, and the
/// new item too where it passes.
pub proof fn lemma_filter_push<T>(s: Seq<T>, x: T, pred: spec_fn(T) -> bool)
    ensures
        s.push(x).filter(pred) == if pred(x) {
            s.filter(pred).push(x)
        } else {
            s.filter(pred)
        },
{
    reveal(Seq::filter);
    assert(s.push(x).drop_last() =~= s);
}

/// The first `n` of a sequence that grew by one item take the new item
/// exactly where fewer than `n` came before it.
pub proof fn lemma_first_n_push<T>(s: Seq<T>, x: T, n: nat)
    ensures
        first_n(s.push(x), n) == if s.len() < n {
            first_n(s, n).push(x)
        } else {
            first_n(s, n)
        },
{
    if s.len() < n {
        assert(first_n(s.push(x), n) =~= first_n(s, n).push(x));
    } else {
        assert(first_n(s.push(x), n) =~= first_n(s, n));
    }
}

/// The results of `f` on every item in turn, or the first failure: nothing
/// after a failure is looked at.
pub open spec fn gather<T, V>(items: Seq<T>, f: spec_fn(T) -> Result<V, Seq<char>>) -> Result<
    Seq<V>,
    Seq<char>,
>
    decreases items.len(),
{
    if items.len() == 0 {
        Ok(Seq::empty())
    } else {
        match gather(items.drop_last(), f) {
            Err(e) => Err(e),
            Ok(done) => match f(items.last()) {
                Err(e) => Err(e),
                Ok(v) => Ok(done.push(v)),
            },
        }
    }
}

/// Gathering one item more goes on from what was gathered.
pub proof fn lemma_gather_step<T, V>(
    items: Seq<T>,
    f: spec_fn(T) -> Result<V, Seq<char>>,
    i: int,
)
    requires
        0 <= i < items.len(),
    ensures
        gather(items.take(i + 1), f) == match gather(items.take(i), f) {
            Err(e) => Err(e),
            Ok(done) => match f(items[i]) {
                Err(e) => Err(e),
                Ok(v) => Ok(done.push(v)),
            },
        },
{
    assert(items.take(i + 1).drop_last() =~= items.take(i));
}

/// A failure among the first items is the failure of the whole.
pub proof fn lemma_gather_failure_stays<T, V>(
    items: Seq<T>,
    f: spec_fn(T) -> Result<V, Seq<char>>,
    i: int,
)
    requires
        0 <= i <= items.len(),
        gather(items.take(i), f) is Err,
    ensures
        gather(items, f) == gather(items.take(i), f),
    decreases items.len() - i,
{
    if i == items.len() {
        assert(items.take(i) =~= items);
    } else {
        lemma_gather_step(items, f, i);
        lemma_gather_failure_stays(items, f, i + 1);
    }
}

/// Where nothing fails, as many results are gathered as there are items,
/// each from the item in its place.
pub proof fn lemma_gather_all<T, V>(items: Seq<T>, f: spec_fn(T) -> Result<V, Seq<char>>)
    ensures
        gather(items, f) matches Ok(done) ==> done.len() == items.len() && forall|i: int|
            0 <= i < items.len() ==> f(#[trigger] items[i]) == Ok::<V, Seq<char>>(done[i]),
    decreases items.len(),
{
    if items.len() > 0 {
        let rest = items.drop_last();
        lemma_gather_all(rest, f);
        if let Ok(done) = gather(items, f) {
            assert forall|i: int| 0 <= i < items.len() implies f(#[trigger] items[i]) == Ok::<
                V,
                Seq<char>,
            >(done[i]) by {
                if i < rest.len() {
                    assert(items[i] == rest[i]);
                }
            }
        }
    }
}

/// Whether the keys of `s` never fall from one item to the next.
pub open spec fn ascending<T>(s: Seq<T>, key: spec_fn(T) -> int) -> bool {
    forall|i: int, j: int| 0 <= i <= j < s.len() ==> key(s[i]) <= key(s[j])
}

/// What is kept of a sequence passes the test, stood in the sequence, and
/// is in the order it had there.
pub proof fn lemma_filter_keeps_order<T>(s: Seq<T>, pred: spec_fn(T) -> bool, key: spec_fn(T) -> int)
    ensures
        forall|i: int| 0 <= i < s.filter(pred).len() ==> pred(#[trigger] s.filter(pred)[i]),
        forall|i: int|
            0 <= i < s.filter(pred).len() ==> s.contains(#[trigger] s.filter(pred)[i]),
        ascending(s, key) ==> ascending(s.filter(pred), key),
    decreases s.len(),
{
    reveal(Seq::filter);
    if s.len() > 0 {
        let rest = s.drop_last();
        let last = s.last();
        lemma_filter_keeps_order(rest, pred, key);
        let kept = rest.filter(pred);
        assert forall|i: int| 0 <= i < kept.len() implies s.contains(#[trigger] kept[i]) by {
            assert(rest.contains(kept[i]));
            let k = choose|k: int| 0 <= k < rest.len() && rest[k] == kept[i];
            assert(s[k] == kept[i]);
        }
        assert(s[s.len() - 1] == last);
        if ascending(s, key) {
            assert(ascending(rest, key)) by {
                assert forall|i: int, j: int| 0 <= i <= j < rest.len() implies key(rest[i]) <= key(
                    rest[j],
                ) by {
                    assert(rest[i] == s[i] && rest[j] == s[j]);
                }
            }
            assert forall|i: int| 0 <= i < kept.len() implies key(#[trigger] kept[i]) <= key(
                last,
            ) by {
                assert(rest.contains(kept[i]));
                let k = choose|k: int| 0 <= k < rest.len() && rest[k] == kept[i];
                assert(s[k] == kept[i]);
                assert(key(s[k]) <= key(s[s.len() - 1]));
            }
        }
    }
}

/// Of the items that pass a test, the first `n`: never more than `n`, all
/// of them where no more than `n` pass, exactly `n` where at least `n`
/// pass; each passes the test; and where the keys of the sequence never
/// fall, the keys of what is taken never fall.
pub proof fn law_first_filtered<T>(
    s: Seq<T>,
    pred: spec_fn(T) -> bool,
    key: spec_fn(T) -> int,
    n: nat,
)
    ensures
        first_n(s.filter(pred), n).len() <= n,
        first_n(s.filter(pred), n).len() <= s.len(),
        s.filter(pred).len() >= n ==> first_n(s.filter(pred), n).len() == n,
        s.filter(pred).len() <= n ==> first_n(s.filter(pred), n) == s.filter(pred),
        forall|i: int|
            0 <= i < first_n(s.filter(pred), n).len() ==> pred(
                #[trigger] first_n(s.filter(pred), n)[i],
            ),
        forall|i: int|
            0 <= i < first_n(s.filter(pred), n).len() ==> s.contains(
                #[trigger] first_n(s.filter(pred), n)[i],
            ),
        ascending(s, key) ==> ascending(first_n(s.filter(pred), n), key),
{
    lemma_filter_keeps_order(s, pred, key);
    s.lemma_filter_len(pred);
    let kept = s.filter(pred);
    let taken = first_n(kept, n);
    assert forall|i: int| 0 <= i < taken.len() implies taken[i] == kept[i] by {}
    assert forall|i: int| 0 <= i < taken.len() implies pred(#[trigger] taken[i]) by {
        assert(taken[i] == kept[i]);
    }
    assert forall|i: int| 0 <= i < taken.len() implies s.contains(#[trigger] taken[i]) by {
        assert(taken[i] == kept[i]);
    }
    if ascending(s, key) {
        assert forall|i: int, j: int| 0 <= i <= j < taken.len() implies key(taken[i]) <= key(
            taken[j],
        ) by {
            assert(taken[i] == kept[i] && taken[j] == kept[j]);
        }
    }
}

} // verus!
