//! The weather gateway as the dashboard sees it: how a request is
//! addressed, and what becomes of its outcome.

use vstd::prelude::*;
use crate::text::{decimal, option_view, push_decimal};
use crate::weather::Weather;

verus! {

/// The address of the forecast service.
pub const URL: &'static str = "http://api.weatherapi.com/v1/forecast.json";

/// The number of forecast days asked for when none is given.
pub const DEFAULT_DAYS: u8 = 1;

/// The one failure of the gateway: whatever went wrong on the way, the
/// dashboard learns no more than that no snapshot came back.
#[derive(Clone, Copy, Debug, PartialEq, Eq)]
pub struct FetchError;

/// The names and values of a query, as sequences of characters.
pub open spec fn pairs_view(params: Seq<(String, String)>) -> Seq<(Seq<char>, Seq<char>)> {
    params.map_values(|p: (String, String)| (p.0@, p.1@))
}

/// The parameters of a forecast request: the key of the service, the
/// place asked about, and the number of days, one by default.
pub open spec fn query(key: Seq<char>, location: Seq<char>, days: Option<u8>) -> Seq<
    (Seq<char>, Seq<char>),
> {
    seq![
        ("key"@, key),
        ("q"@, location),
        (
            "days"@,
            decimal(
                (match days {
                    Some(d) => d,
                    None => DEFAULT_DAYS,
                }) as nat,
            ),
        ),
    ]
}

/// The text of the URL that `base` and `params` make: `base` parsed as an
/// absolute URL, with each pair of `params` added to its query string in
/// order; `None` when `base` is no absolute URL.
pub uninterp spec fn url_with_params(base: Seq<char>, params: Seq<(Seq<char>, Seq<char>)>) -> Option<
    Seq<char>,
>;

/// Calls `reqwest::Url::parse_with_params` and hands back the URL as
/// text. The contract only names the result: it is a function of the
/// base and the pairs, but how the URL is parsed and the pairs encoded is
/// not stated here.
#[verifier::external_body]
fn parse_with_params(base: &str, params: &Vec<(String, String)>) -> (r: Option<String>)
    ensures
        option_view(r) == url_with_params(base@, pairs_view(params@)),
{
    match reqwest::Url::parse_with_params(base, params) {
        Ok(url) => Some(String::from(url)),
        Err(_) => None,
    }
}

/// The parameters of a forecast request.
pub fn request_params(key: &str, location: &str, days: Option<u8>) -> (r: Vec<(String, String)>)
    ensures
        pairs_view(r@) == query(key@, location@, days),
{
    let count: u8 = match days {
        Some(d) => d,
        None => DEFAULT_DAYS,
    };
    let mut number = String::new();
    push_decimal(&mut number, count as u64);
    let mut params: Vec<(String, String)> = Vec::new();
    params.push((String::from_str("key"), String::from_str(key)));
    params.push((String::from_str("q"), String::from_str(location)));
    params.push((String::from_str("days"), number));
    params
}

/// The URL of a forecast request, or `None` when none can be made.
pub fn request_url(key: &str, location: &str, days: Option<u8>) -> (r: Option<String>)
    ensures
        option_view(r) == url_with_params(URL@, query(key@, location@, days)),
{
    let params = request_params(key, location, days);
    parse_with_params(URL, &params)
}

/// The snapshot of a fetch that succeeded; nothing of one that failed.
pub fn get_current_weather(fetched: Result<Weather, FetchError>) -> (r: Option<Weather>)
    ensures
        r == match fetched {
            Ok(weather) => Some(weather),
            Err(_) => None,
        },
{
    match fetched {
        Ok(result) => Some(result),
        Err(_) => None,
    }
}

} // verus!
