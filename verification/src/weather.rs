//! Weather: the forecast request's address and the reading of the service's
//! 0/1 flags as booleans.
use vstd::prelude::*;

verus! {

/// Address of the forecast endpoint of the weather service.
pub const WEATHER_API_URI: &'static str = "https://api.weatherapi.com/v1/forecast.json";

/// Fixed part of the forecast query: one day, with air quality and alerts.
pub const QUERY: &'static str = "days=1&aqi=yes&alerts=yes";

/// The forecast address for an API key and a location, both inserted as
/// they stand: `WEATHER_API_URI?key=<key>&q=<location>&QUERY`.
pub open spec fn weather_url_of(api_key: Seq<char>, location: Seq<char>) -> Seq<char> {
    WEATHER_API_URI@ + "?key="@ + api_key + "&q="@ + location + "&"@ + QUERY@
}

/// Builds the forecast address for an API key and a location.
pub fn weather_url(api_key: &str, location: &str) -> (res: String)
    ensures
        res@ == weather_url_of(api_key@, location@),
{
    let mut url = String::from_str(WEATHER_API_URI);
    url.append("?key=");
    url.append(api_key);
    url.append("&q=");
    url.append(location);
    url.append("&");
    url.append(QUERY);
    url
}

/// A flag of the weather service held a number other than 0 or 1.
#[derive(Debug, PartialEq, Eq, Structural)]
pub struct InvalidFlag {
    /// The number that was found (the service's "expected zero or one").
    pub value: u8,
}

/// The boolean a 0/1 flag of the weather service stands for.
pub open spec fn flag_value(value: u8) -> Result<bool, InvalidFlag> {
    if value == 0 {
        Ok(false)
    } else if value == 1 {
        Ok(true)
    } else {
        Err(InvalidFlag { value })
    }
}

/// Reads a 0/1 flag of the weather service: 0 is `false`, 1 is `true`, and
/// any other number is refused with that number.
pub fn int_to_bool(value: u8) -> (res: Result<bool, InvalidFlag>)
    ensures
        res == flag_value(value),
{
    match value {
        0 => Ok(false),
        1 => Ok(true),
        other => Err(InvalidFlag { value: other }),
    }
}

/// Writing a boolean as the service does (1 for true, 0 for false) and
/// reading it back gives the boolean again.
pub proof fn lemma_flag_round_trip(b: bool)
    ensures
        flag_value(if b { 1u8 } else { 0u8 }) == Ok::<bool, InvalidFlag>(b),
{
}

/// Exactly two numbers are read as flags, and they read as different
/// booleans.
pub proof fn lemma_flag_accepts_only_zero_and_one(value: u8)
    ensures
        flag_value(value) is Ok <==> (value == 0 || value == 1),
        flag_value(0) != flag_value(1),
{
}

/// The forecast address is made of its parts in order, each in full: the
/// endpoint, "?key=", the whole key, "&q=", the whole location, "&" and the
/// fixed query; its length is the sum of theirs.
pub proof fn lemma_weather_url_parts(api_key: Seq<char>, location: Seq<char>)
    ensures
        ({
            let u = weather_url_of(api_key, location);
            let e = WEATHER_API_URI@.len() as int;
            let a = e + "?key="@.len();
            let b = a + api_key.len();
            let c = b + "&q="@.len();
            let d = c + location.len();
            let f = d + "&"@.len();
            &&& u.len() == f + QUERY@.len()
            &&& u.subrange(0, e) == WEATHER_API_URI@
            &&& u.subrange(e, a) == "?key="@
            &&& u.subrange(a, b) == api_key
            &&& u.subrange(b, c) == "&q="@
            &&& u.subrange(c, d) == location
            &&& u.subrange(d, f) == "&"@
            &&& u.subrange(f, u.len() as int) == QUERY@
        }),
{
    let u = weather_url_of(api_key, location);
    let e = WEATHER_API_URI@.len() as int;
    let a = e + "?key="@.len();
    let b = a + api_key.len();
    let c = b + "&q="@.len();
    let d = c + location.len();
    let f = d + "&"@.len();
    assert(u.subrange(0, e) =~= WEATHER_API_URI@);
    assert(u.subrange(e, a) =~= "?key="@);
    assert(u.subrange(a, b) =~= api_key);
    assert(u.subrange(b, c) =~= "&q="@);
    assert(u.subrange(c, d) =~= location);
    assert(u.subrange(d, f) =~= "&"@);
    assert(u.subrange(f, u.len() as int) =~= QUERY@);
}

/// Flags read as 0 = false and 1 = true, and every other number is refused
/// carrying that number.
pub proof fn lemma_flag_values(value: u8)
    ensures
        flag_value(0) == Ok::<bool, InvalidFlag>(false),
        flag_value(1) == Ok::<bool, InvalidFlag>(true),
        value >= 2 ==> flag_value(value) == Err::<bool, InvalidFlag>(InvalidFlag { value }),
{
}

} // verus!
