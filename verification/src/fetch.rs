//! Extracting a weather report from a provider's JSON response body, and
//! the query URL the provider is asked with.
//!
//! Reading the JSON is serde_json's work: each expected field's text is
//! pulled out by a small trusted function whose result is named as a pure
//! function of the body. Everything after that — presence checks, number
//! conversion, report assembly — is verified code, so the whole extraction
//! contract is exact up to those names.
use crate::numparse::{int_part, tenths_val, wf_number};
use crate::report::WeatherReport;
use vstd::prelude::*;

verus! {

/// Why a fetch produced no report: the request itself failed, or the
/// response body did not match the expected shape.
#[derive(Debug)]
pub enum FetchError {
    Network(String),
    Deserialization(String),
}

/// The human-readable description carried by a fetch error.
pub open spec fn error_message(e: FetchError) -> Seq<char> {
    match e {
        FetchError::Network(m) => m@,
        FetchError::Deserialization(m) => m@,
    }
}

impl FetchError {
    /// The error's description, for showing to the user.
    pub fn message(&self) -> (m: String)
        ensures
            m@ == error_message(*self),
    {
        match self {
            FetchError::Network(m) => m.clone(),
            FetchError::Deserialization(m) => m.clone(),
        }
    }
}

/// The text of the top-level "name" string in a response body, None when
/// the body does not parse as JSON or holds no string there.
pub uninterp spec fn name_text_of(body: Seq<char>) -> Option<Seq<char>>;

/// The text of the "description" string of the first entry of the
/// top-level "weather" array, None when the body does not parse, the array
/// is missing or empty, or no string is there.
pub uninterp spec fn description_text_of(body: Seq<char>) -> Option<Seq<char>>;

/// The decimal text of the number under "main"."temp", None when the body
/// does not parse or no number is there.
pub uninterp spec fn temp_text_of(body: Seq<char>) -> Option<Seq<char>>;

/// The decimal text of the number under "main"."humidity", None when the
/// body does not parse or no number is there.
pub uninterp spec fn humidity_text_of(body: Seq<char>) -> Option<Seq<char>>;

/// The decimal text of the number under "main"."pressure", None when the
/// body does not parse or no number is there.
pub uninterp spec fn pressure_text_of(body: Seq<char>) -> Option<Seq<char>>;

/// The decimal text of the number under "wind"."speed", None when the body
/// does not parse or no number is there.
pub uninterp spec fn wind_text_of(body: Seq<char>) -> Option<Seq<char>>;

/// Relies on serde_json::from_str, Value::get and Value::as_str: the
/// "name" field's text. serde_json parses deterministically, so the result
/// depends on the body text alone.
#[verifier::external_body]
fn name_text(body: &str) -> (r: Option<String>)
    ensures
        (r is Some) == (name_text_of(body@) is Some),
        r matches Some(s) ==> Some(s@) == name_text_of(body@),
{
    serde_json::from_str::<serde_json::Value>(body).ok().and_then(
        |v| v.get("name").and_then(|x| x.as_str()).map(|s| s.to_owned()),
    )
}

/// Relies on serde_json::from_str, Value::get and Value::as_str: the first
/// weather condition's "description" text. Value::get with index 0 returns
/// None on an empty array, so an empty condition list yields None here.
#[verifier::external_body]
fn description_text(body: &str) -> (r: Option<String>)
    ensures
        (r is Some) == (description_text_of(body@) is Some),
        r matches Some(s) ==> Some(s@) == description_text_of(body@),
{
    serde_json::from_str::<serde_json::Value>(body).ok().and_then(
        |v|
            v.get("weather").and_then(|w| w.get(0)).and_then(|f| f.get("description")).and_then(
                |x| x.as_str(),
            ).map(|s| s.to_owned()),
    )
}

/// Relies on serde_json::from_str, Value::get, Value::as_number and the
/// Display impl of serde_json::Number: the "main"."temp" number's text
/// (decimal, or scientific for extreme floats).
#[verifier::external_body]
fn temp_text(body: &str) -> (r: Option<String>)
    ensures
        (r is Some) == (temp_text_of(body@) is Some),
        r matches Some(s) ==> Some(s@) == temp_text_of(body@),
{
    serde_json::from_str::<serde_json::Value>(body).ok().and_then(
        |v|
            v.get("main").and_then(|m| m.get("temp")).and_then(|x| x.as_number()).map(
                |n| n.to_string(),
            ),
    )
}

/// Relies on serde_json::from_str, Value::get, Value::as_number and the
/// Display impl of serde_json::Number: the "main"."humidity" number's text.
#[verifier::external_body]
fn humidity_text(body: &str) -> (r: Option<String>)
    ensures
        (r is Some) == (humidity_text_of(body@) is Some),
        r matches Some(s) ==> Some(s@) == humidity_text_of(body@),
{
    serde_json::from_str::<serde_json::Value>(body).ok().and_then(
        |v|
            v.get("main").and_then(|m| m.get("humidity")).and_then(|x| x.as_number()).map(
                |n| n.to_string(),
            ),
    )
}

/// Relies on serde_json::from_str, Value::get, Value::as_number and the
/// Display impl of serde_json::Number: the "main"."pressure" number's text.
#[verifier::external_body]
fn pressure_text(body: &str) -> (r: Option<String>)
    ensures
        (r is Some) == (pressure_text_of(body@) is Some),
        r matches Some(s) ==> Some(s@) == pressure_text_of(body@),
{
    serde_json::from_str::<serde_json::Value>(body).ok().and_then(
        |v|
            v.get("main").and_then(|m| m.get("pressure")).and_then(|x| x.as_number()).map(
                |n| n.to_string(),
            ),
    )
}

/// Relies on serde_json::from_str, Value::get, Value::as_number and the
/// Display impl of serde_json::Number: the "wind"."speed" number's text.
#[verifier::external_body]
fn wind_text(body: &str) -> (r: Option<String>)
    ensures
        (r is Some) == (wind_text_of(body@) is Some),
        r matches Some(s) ==> Some(s@) == wind_text_of(body@),
{
    serde_json::from_str::<serde_json::Value>(body).ok().and_then(
        |v|
            v.get("wind").and_then(|m| m.get("speed")).and_then(|x| x.as_number()).map(
                |n| n.to_string(),
            ),
    )
}

/// Whether an extracted number text yields a tenths value: present,
/// well-formed decimal text, and a whole part of at most 15 digits.
pub open spec fn num_ok(t: Option<String>) -> bool {
    &&& t is Some
    &&& wf_number(t->0@)
    &&& int_part(t->0@).len() <= 15
}

/// `num_ok`, for a named field text rather than an extracted value.
pub open spec fn text_num_ok(t: Option<Seq<char>>) -> bool {
    &&& t is Some
    &&& wf_number(t->0)
    &&& int_part(t->0).len() <= 15
}

/// Builds a report from the six extracted fields, or says exactly which
/// field was missing or malformed. Succeeds if and only if both strings are
/// present and all four number texts parse as decimal numbers.
pub fn assemble_report(
    name: Option<String>,
    description: Option<String>,
    temp_text: Option<String>,
    humidity_text: Option<String>,
    pressure_text: Option<String>,
    wind_text: Option<String>,
) -> (r: Result<WeatherReport, FetchError>)
    ensures
        (r is Ok) == (name is Some && description is Some && num_ok(temp_text) && num_ok(
            humidity_text,
        ) && num_ok(pressure_text) && num_ok(wind_text)),
        r matches Ok(rep) ==> {
            &&& rep.name@ == name->0@
            &&& rep.description@ == description->0@
            &&& rep.temp_tenths as int == tenths_val(temp_text->0@)
            &&& rep.humidity_tenths as int == tenths_val(humidity_text->0@)
            &&& rep.pressure_tenths as int == tenths_val(pressure_text->0@)
            &&& rep.wind_tenths as int == tenths_val(wind_text->0@)
        },
        r matches Err(e) ==> e is Deserialization,
        name is None ==> (r matches Err(e) && error_message(e) == "missing location name"@),
        name is Some && description is None ==> (r matches Err(e) && error_message(e)
            == "missing weather description"@),
        name is Some && description is Some && !num_ok(temp_text) ==> (r matches Err(e)
            && error_message(e) == "invalid temperature"@),
        name is Some && description is Some && num_ok(temp_text) && !num_ok(humidity_text)
            ==> (r matches Err(e) && error_message(e) == "invalid humidity"@),
        name is Some && description is Some && num_ok(temp_text) && num_ok(humidity_text)
            && !num_ok(pressure_text) ==> (r matches Err(e) && error_message(e)
            == "invalid pressure"@),
        name is Some && description is Some && num_ok(temp_text) && num_ok(humidity_text)
            && num_ok(pressure_text) && !num_ok(wind_text) ==> (r matches Err(e)
            && error_message(e) == "invalid wind speed"@),
{
    let nm = match name {
        Some(x) => x,
        None => {
            return Err(FetchError::Deserialization(String::from_str("missing location name")));
        },
    };
    let desc = match description {
        Some(x) => x,
        None => {
            return Err(
                FetchError::Deserialization(String::from_str("missing weather description")),
            );
        },
    };
    let temp = match parse_number_field(temp_text) {
        Some(v) => v,
        None => {
            return Err(FetchError::Deserialization(String::from_str("invalid temperature")));
        },
    };
    let humidity = match parse_number_field(humidity_text) {
        Some(v) => v,
        None => {
            return Err(FetchError::Deserialization(String::from_str("invalid humidity")));
        },
    };
    let pressure = match parse_number_field(pressure_text) {
        Some(v) => v,
        None => {
            return Err(FetchError::Deserialization(String::from_str("invalid pressure")));
        },
    };
    let wind = match parse_number_field(wind_text) {
        Some(v) => v,
        None => {
            return Err(FetchError::Deserialization(String::from_str("invalid wind speed")));
        },
    };
    Ok(
        WeatherReport {
            name: nm,
            description: desc,
            temp_tenths: temp,
            humidity_tenths: humidity,
            pressure_tenths: pressure,
            wind_tenths: wind,
        },
    )
}

/// Parses an optional number text into tenths: Some exactly when the text
/// is present and well formed.
fn parse_number_field(t: Option<String>) -> (r: Option<i64>)
    ensures
        (r is Some) == num_ok(t),
        r matches Some(v) ==> v as int == tenths_val(t->0@),
{
    match t {
        Some(x) => crate::numparse::parse_tenths(&x),
        None => None,
    }
}

/// Pulls the six expected fields out of a provider response body and
/// builds the report. The result is Ok exactly when the body parses with
/// both strings present and all four numbers well formed; any shape
/// mismatch, including an empty condition list under "weather", is a
/// deserialization error naming the first offending field, and a network
/// failure never originates here.
pub fn extract_report(body: &str) -> (r: Result<WeatherReport, FetchError>)
    ensures
        (r is Ok) == (name_text_of(body@) is Some && description_text_of(body@) is Some
            && text_num_ok(temp_text_of(body@)) && text_num_ok(humidity_text_of(body@))
            && text_num_ok(pressure_text_of(body@)) && text_num_ok(wind_text_of(body@))),
        r matches Ok(rep) ==> {
            &&& Some(rep.name@) == name_text_of(body@)
            &&& Some(rep.description@) == description_text_of(body@)
            &&& rep.temp_tenths as int == tenths_val(temp_text_of(body@)->0)
            &&& rep.humidity_tenths as int == tenths_val(humidity_text_of(body@)->0)
            &&& rep.pressure_tenths as int == tenths_val(pressure_text_of(body@)->0)
            &&& rep.wind_tenths as int == tenths_val(wind_text_of(body@)->0)
        },
        r matches Err(e) ==> e is Deserialization,
        name_text_of(body@) is None ==> (r matches Err(e) && error_message(e)
            == "missing location name"@),
        name_text_of(body@) is Some && description_text_of(body@) is None ==> (r matches Err(e)
            && error_message(e) == "missing weather description"@),
        name_text_of(body@) is Some && description_text_of(body@) is Some && !text_num_ok(
            temp_text_of(body@),
        ) ==> (r matches Err(e) && error_message(e) == "invalid temperature"@),
        name_text_of(body@) is Some && description_text_of(body@) is Some && text_num_ok(
            temp_text_of(body@),
        ) && !text_num_ok(humidity_text_of(body@)) ==> (r matches Err(e) && error_message(e)
            == "invalid humidity"@),
        name_text_of(body@) is Some && description_text_of(body@) is Some && text_num_ok(
            temp_text_of(body@),
        ) && text_num_ok(humidity_text_of(body@)) && !text_num_ok(pressure_text_of(body@)) ==> (
        r matches Err(e) && error_message(e) == "invalid pressure"@),
        name_text_of(body@) is Some && description_text_of(body@) is Some && text_num_ok(
            temp_text_of(body@),
        ) && text_num_ok(humidity_text_of(body@)) && text_num_ok(pressure_text_of(body@))
            && !text_num_ok(wind_text_of(body@)) ==> (r matches Err(e) && error_message(e)
            == "invalid wind speed"@),
{
    let name = name_text(body);
    let description = description_text(body);
    let temp = temp_text(body);
    let humidity = humidity_text(body);
    let pressure = pressure_text(body);
    let wind = wind_text(body);
    proof {
        assert(num_ok(temp) == text_num_ok(temp_text_of(body@)));
        assert(num_ok(humidity) == text_num_ok(humidity_text_of(body@)));
        assert(num_ok(pressure) == text_num_ok(pressure_text_of(body@)));
        assert(num_ok(wind) == text_num_ok(wind_text_of(body@)));
    }
    assemble_report(name, description, temp, humidity, pressure, wind)
}

/// The provider query URL for a city, a country code and an API key,
/// requesting metric units. Inputs are spliced in as given; none is
/// validated or encoded, so an unusual city name reaches the provider
/// verbatim.
pub open spec fn url_text(city: Seq<char>, country: Seq<char>, api_key: Seq<char>) -> Seq<char> {
    "https://api.openweathermap.org/data/2.5/weather?q="@ + city + ","@ + country
        + "&units=metric&appid="@ + api_key
}

/// Builds the provider query URL.
pub fn build_url(city: &String, country: &String, api_key: &String) -> (u: String)
    ensures
        u@ == url_text(city@, country@, api_key@),
{
    let mut u = String::from_str("https://api.openweathermap.org/data/2.5/weather?q=");
    u.append(city.as_str());
    u.append(",");
    u.append(country.as_str());
    u.append("&units=metric&appid=");
    u.append(api_key.as_str());
    proof {
        assert(u@ =~= url_text(city@, country@, api_key@));
    }
    u
}

} // verus!
