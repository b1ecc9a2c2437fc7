//! Where this machine is, for Locate Me.
//!
//! The answer comes from a service that is asked over the network, or from the
//! environment, which answers without asking anyone. Either way it is a pair of
//! numerals with a comma between them. Reading a numeral as a double is the
//! caller's part: the two numerals are handed out, and what they read as is
//! handed back.
use vstd::prelude::*;
use vstd::string::*;

use crate::json::{text_member, text_members};
use crate::scalar::{number, Scalar};
use crate::text::{split_first, split_once, texts_are_split_at_the_first, trim, trimmed};

verus! {

/// What the service answers at. It returns
/// `{"loc": "35.6895,139.6917", "city": "Tokyo", "country": "JP", ...}`.
pub const ENDPOINT: &'static str = "https://ipinfo.io/json";

/// How long the service may take to be reached, in seconds. Giving up beats
/// leaving the button looking stuck.
pub const CONNECT_TIMEOUT_SECONDS: u64 = 5;

/// How long it may take to answer, in seconds.
pub const TIMEOUT_SECONDS: u64 = 10;

/// Set to `lat,lon` to answer without asking anyone.
pub const HOME_VAR: &'static str = "OSM_SOUND_DEMO_HOME";

/// The bit pattern of 90, the steepest latitude there is.
pub const MAX_LATITUDE: u64 = 0x4056_8000_0000_0000;

/// The bit pattern of -90.
pub const MIN_LATITUDE: u64 = 0xc056_8000_0000_0000;

/// A place, and what to call it in the status line.
#[derive(Debug, Clone)]
pub struct Located {
    pub lat: Scalar,
    pub lon: Scalar,
    pub label: String,
}

/// Whether a number can be a latitude. One outside the range is a swapped pair,
/// not a location.
pub open spec fn latitude(lat: Scalar) -> bool {
    &&& !lat.nan()
    &&& !lat.below(number(MIN_LATITUDE))
    &&& !number(MAX_LATITUDE).below(lat)
}

/// The two numerals of a coordinate pair.
pub open spec fn pair(value: Seq<char>) -> Option<(Seq<char>, Seq<char>)> {
    match split_first(value, ',') {
        Some((lat, lon)) => Some((trimmed(lat), trimmed(lon))),
        None => None,
    }
}

/// The place a pair of numerals names, given what they read as: none unless
/// both are numbers and the first can be a latitude.
pub open spec fn placed(lat: Option<Scalar>, lon: Option<Scalar>) -> Option<(Scalar, Scalar)> {
    match (lat, lon) {
        (Some(lat), Some(lon)) => if latitude(lat) {
            Some((lat, lon))
        } else {
            None
        },
        _ => None,
    }
}

/// A text that says something.
pub open spec fn said(text: Option<Seq<char>>) -> Option<Seq<char>> {
    match text {
        Some(text) if text.len() > 0 => Some(text),
        _ => None,
    }
}

/// What a place is called: its city and country, whichever of the two is known,
/// and otherwise its coordinates.
pub open spec fn place_name(
    city: Option<Seq<char>>,
    country: Option<Seq<char>>,
    lat_text: Seq<char>,
    lon_text: Seq<char>,
) -> Seq<char> {
    match (said(city), said(country)) {
        (Some(city), Some(country)) => city + ", "@ + country,
        (Some(city), None) => city,
        (None, Some(country)) => country,
        (None, None) => lat_text + ", "@ + lon_text,
    }
}

/// The text of a member, if the response has it.
pub open spec fn member_text(response: serde_json::Value, name: Seq<char>) -> Option<Seq<char>> {
    if text_members(response).contains_key(name) {
        Some(text_members(response)[name])
    } else {
        None
    }
}

/// The two numerals of the location a response gives.
pub open spec fn response_pair(response: serde_json::Value) -> Option<(Seq<char>, Seq<char>)> {
    match member_text(response, "loc"@) {
        Some(loc) => pair(loc),
        None => None,
    }
}

/// What an optional text holds.
pub open spec fn held(text: Option<String>) -> Option<Seq<char>> {
    match text {
        Some(text) => Some(text@),
        None => None,
    }
}

/// What two optional numerals hold.
pub open spec fn held_pair(pair: Option<(String, String)>) -> Option<(Seq<char>, Seq<char>)> {
    match pair {
        Some((lat, lon)) => Some((lat@, lon@)),
        None => None,
    }
}

/// Takes a coordinate pair apart into its two numerals.
pub fn coordinates(value: &str) -> (r: Option<(String, String)>)
    ensures
        held_pair(r) == pair(value@),
{
    match split_once(value, ',') {
        Some((lat, lon)) => Some((trim(lat.as_str()), trim(lon.as_str()))),
        None => None,
    }
}

/// Whether a number can be a latitude.
pub fn is_latitude(lat: Scalar) -> (r: bool)
    ensures
        r == latitude(lat),
{
    !lat.is_nan() && !lat.less(Scalar { bits: MIN_LATITUDE }) && !Scalar {
        bits: MAX_LATITUDE,
    }.less(lat)
}

/// The place the environment names, given what the two numerals of `HOME_VAR`
/// read as.
pub fn parse_home(lat: Option<Scalar>, lon: Option<Scalar>) -> (r: Option<Located>)
    ensures
        match r {
            Some(located) => placed(lat, lon) == Some((located.lat, located.lon)) && located.label@
                == HOME_VAR@,
            None => placed(lat, lon) is None,
        },
        r matches Some(located) ==> lat == Some(located.lat) && lon == Some(located.lon),
        r is Some <==> {
            &&& lat is Some && lon is Some
            &&& !lat->0.nan()
            &&& !lat->0.below(number(0xc056_8000_0000_0000))
            &&& !number(0x4056_8000_0000_0000).below(lat->0)
        },
{
    match (lat, lon) {
        (Some(lat), Some(lon)) => if is_latitude(lat) {
            Some(Located { lat, lon, label: HOME_VAR.to_owned() })
        } else {
            None
        },
        _ => None,
    }
}

/// Names a place. `lat_text` and `lon_text` are its coordinates as they would
/// be written, for a place that nothing else names.
pub fn name_place(
    lat: Option<Scalar>,
    lon: Option<Scalar>,
    city: Option<String>,
    country: Option<String>,
    lat_text: &str,
    lon_text: &str,
) -> (r: Option<Located>)
    ensures
        match r {
            Some(located) => placed(lat, lon) == Some((located.lat, located.lon)) && located.label@
                == place_name(held(city), held(country), lat_text@, lon_text@),
            None => placed(lat, lon) is None,
        },
        r matches Some(located) ==> lat == Some(located.lat) && lon == Some(located.lon),
        r is Some <==> {
            &&& lat is Some && lon is Some
            &&& !lat->0.nan()
            &&& !lat->0.below(number(0xc056_8000_0000_0000))
            &&& !number(0x4056_8000_0000_0000).below(lat->0)
        },
{
    match (lat, lon) {
        (Some(lat), Some(lon)) => {
            if !is_latitude(lat) {
                return None;
            }
            let city = if_said(city);
            let country = if_said(country);
            let label = match (city, country) {
                (Some(city), Some(country)) => {
                    let mut label = city;
                    label.append(", ");
                    label.append(country.as_str());
                    label
                },
                (Some(city), None) => city,
                (None, Some(country)) => country,
                (None, None) => {
                    let mut label = lat_text.to_owned();
                    label.append(", ");
                    label.append(lon_text);
                    label
                },
            };
            Some(Located { lat, lon, label })
        },
        _ => None,
    }
}

/// Keeps a text that says something.
fn if_said(text: Option<String>) -> (r: Option<String>)
    ensures
        held(r) == said(held(text)),
{
    match text {
        Some(text) => if text.as_str().is_empty() {
            None
        } else {
            Some(text)
        },
        None => None,
    }
}

/// The two numerals of the location a response gives.
pub fn lookup_coordinates(response: &serde_json::Value) -> (r: Option<(String, String)>)
    ensures
        held_pair(r) == response_pair(*response),
{
    match text_member(response, "loc") {
        Some(loc) => coordinates(loc.as_str()),
        None => None,
    }
}

/// The place a response names, given what the two numerals of its location read
/// as and how they would be written.
pub fn parse_lookup(
    response: &serde_json::Value,
    lat: Option<Scalar>,
    lon: Option<Scalar>,
    lat_text: &str,
    lon_text: &str,
) -> (r: Option<Located>)
    ensures
        match r {
            Some(located) => response_pair(*response) is Some && placed(lat, lon) == Some(
                (located.lat, located.lon),
            ) && located.label@ == place_name(
                member_text(*response, "city"@),
                member_text(*response, "country"@),
                lat_text@,
                lon_text@,
            ),
            None => response_pair(*response) is None || placed(lat, lon) is None,
        },
        r matches Some(located) ==> lat == Some(located.lat) && lon == Some(located.lon),
        r is Some ==> !lat->0.nan() && !lat->0.below(number(0xc056_8000_0000_0000)) && !number(
            0x4056_8000_0000_0000,
        ).below(lat->0),
{
    if lookup_coordinates(response).is_none() {
        return None;
    }
    let city = text_member(response, "city");
    let country = text_member(response, "country");
    name_place(lat, lon, city, country, lat_text, lon_text)
}

/// What is said when the service named no place.
pub fn no_location() -> (r: String)
    ensures
        r@ == ENDPOINT@ + " returned no location"@,
{
    let mut text = ENDPOINT.to_owned();
    text.append(" returned no location");
    text
}

/// Whatever a response says, the place it names can be one, and is called
/// something wherever its coordinates can be written.
pub proof fn a_place_has_a_latitude_and_a_name(
    lat: Option<Scalar>,
    lon: Option<Scalar>,
    city: Option<Seq<char>>,
    country: Option<Seq<char>>,
    lat_text: Seq<char>,
    lon_text: Seq<char>,
)
    requires
        placed(lat, lon) is Some,
        lat_text.len() > 0,
    ensures
        placed(lat, lon) matches Some((lat, _)) && latitude(lat),
        place_name(city, country, lat_text, lon_text).len() > 0,
{
}

/// A place is exactly where its two numerals say, bit for bit, whichever side of
/// the equator and of Greenwich that is. There is one whenever both are numbers
/// and the latitude is between -90 and 90, and only then.
pub proof fn a_place_is_where_its_numerals_say(lat: Scalar, lon: Scalar, other: Option<Scalar>)
    ensures
        !lat.nan() && !lat.below(number(0xc056_8000_0000_0000)) && !number(
            0x4056_8000_0000_0000,
        ).below(lat) <==> placed(Some(lat), Some(lon)) is Some,
        placed(Some(lat), Some(lon)) matches Some((to_lat, to_lon)) ==> to_lat == lat && to_lon
            == lon,
        placed(None, other) is None,
        placed(other, None) is None,
{
}

/// A coordinate pair is taken apart at its first comma, and the white space
/// round the two numerals does not count. Without a comma there is no pair.
pub proof fn a_pair_is_two_numerals(lat: Seq<char>, lon: Seq<char>)
    requires
        forall|i: int| 0 <= i < lat.len() ==> lat[i] != ',',
    ensures
        pair(lat + seq![','] + lon) == Some((trimmed(lat), trimmed(lon))),
        pair(lat) is None,
{
    texts_are_split_at_the_first(lat, ',', lon);
}

/// A place goes by its city and country, with a comma between them where it has
/// both, and by its coordinates only where it has neither. A name that says
/// nothing is none.
pub proof fn a_place_goes_by_what_is_known(
    city: Seq<char>,
    country: Seq<char>,
    lat_text: Seq<char>,
    lon_text: Seq<char>,
)
    requires
        city.len() > 0,
        country.len() > 0,
    ensures
        place_name(Some(city), Some(country), lat_text, lon_text) == city + seq![',', ' ']
            + country,
        place_name(Some(city), None, lat_text, lon_text) == city,
        place_name(Some(city), Some(Seq::empty()), lat_text, lon_text) == city,
        place_name(None, Some(country), lat_text, lon_text) == country,
        place_name(Some(Seq::empty()), Some(country), lat_text, lon_text) == country,
        place_name(None, None, lat_text, lon_text) == lat_text + seq![',', ' '] + lon_text,
        place_name(Some(Seq::empty()), Some(Seq::empty()), lat_text, lon_text) == lat_text + seq![
            ',',
            ' ',
        ] + lon_text,
{
    reveal_strlit(", ");
    assert(", "@ =~= seq![',', ' ']);
}

/// A response gives a location where its `loc` is a text that is a pair, and
/// names it by its own texts.
pub proof fn a_response_is_read_by_name(response: serde_json::Value, name: Seq<char>)
    ensures
        text_members(response).contains_key(name) ==> member_text(response, name) == Some(
            text_members(response)[name],
        ),
        !text_members(response).contains_key(name) ==> member_text(response, name) is None,
        text_members(response).contains_key("loc"@) ==> response_pair(response) == pair(
            text_members(response)["loc"@],
        ),
        !text_members(response).contains_key("loc"@) ==> response_pair(response) is None,
{
}

/// What texts hold is what they say.
pub proof fn texts_hold_what_they_say(a: String, b: String)
    ensures
        held(Some(a)) == Some(a@),
        held(None) is None,
        held_pair(Some((a, b))) == Some((a@, b@)),
        held_pair(None) is None,
        said(Some(a@)) is Some <==> a@.len() > 0,
        said(Some(a@)) matches Some(text) ==> text == a@,
        said(None) is None,
{
}

} // verus!
